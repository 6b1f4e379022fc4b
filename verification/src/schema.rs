//! The schema model and its validator.
//!
//! A declaration (`TypeDecl`) carries what an author wrote next to a
//! tagged-union error type: the type-level annotations (status-code type,
//! code prefix) and, per variant, the field shape and the variant-level
//! annotations (code suffix, status text, client message). Validation
//! rejects anything that is not a tagged union and any declaration with a
//! required annotation missing, and otherwise fills the defaults in,
//! yielding the `SchemaModel` the generator consumes.

use vstd::prelude::*;

verus! {

/// The field shape of one variant of a tagged union.
#[derive(Clone, Copy, PartialEq, Eq, Structural, Debug)]
pub enum FieldShape {
    /// No fields: the bare tag.
    Unit,
    /// Positional fields.
    Tuple,
    /// Named fields.
    Struct,
}

/// One variant of a declared error type, with its annotations as written:
/// a missing annotation is `None`.
#[derive(Debug)]
pub struct VariantDecl {
    /// The variant's name.
    pub name: String,
    /// The variant's field shape.
    pub shape: FieldShape,
    /// The declared code suffix; required.
    pub code: Option<String>,
    /// The declared status text; optional, defaults to empty.
    pub app_code: Option<String>,
    /// The declared client message; optional, defaults to empty.
    pub client_msg: Option<String>,
}

/// A declared error type with its type-level annotations as written.
#[derive(Debug)]
pub struct TypeDecl {
    /// The owning type's name.
    pub name: String,
    /// The owning type's generic parameter list as text, empty when the
    /// type has none.
    pub generics: String,
    /// Whether the declaration is a tagged union; anything else is
    /// rejected.
    pub is_tagged_union: bool,
    /// The declared status-code type's path as text; required.
    pub app_type: Option<String>,
    /// The declared code prefix; required.
    pub prefix: Option<String>,
    /// The declared variants.
    pub variants: Vec<VariantDecl>,
}

/// Why a declaration was rejected.
#[derive(Clone, Copy, PartialEq, Eq, Structural, Debug)]
pub enum SchemaError {
    /// The declaration is not a tagged-union type.
    NotATaggedUnion,
    /// A required annotation is absent: the status-code type or the code
    /// prefix at the type level, or a code suffix on some variant.
    MissingRequiredField,
}

/// One validated variant entry: required fields as declared, optional
/// ones defaulted to empty text.
#[derive(Debug)]
pub struct VariantSchema {
    /// The variant's name.
    pub name: String,
    /// The variant's field shape.
    pub shape: FieldShape,
    /// The declared code suffix.
    pub code_suffix: String,
    /// The declared status text, or empty.
    pub app_code: String,
    /// The declared client message, or empty.
    pub client_msg: String,
}

/// The validated schema of one error type.
#[derive(Debug)]
pub struct SchemaModel {
    /// The owning type's name.
    pub name: String,
    /// The owning type's generic parameter list as text.
    pub generics: String,
    /// The status-code type's path as text.
    pub app_type: String,
    /// The code prefix shared by every variant.
    pub prefix: String,
    /// One entry per declared variant, in declaration order.
    pub variants: Vec<VariantSchema>,
}

/// The text of an optional annotation: what was written, or empty when
/// nothing was.
pub open spec fn opt_text(o: Option<String>) -> Seq<char> {
    match o {
        Some(t) => t@,
        None => Seq::empty(),
    }
}

/// Every required annotation is present on the declaration: the
/// status-code type and the prefix at the type level, and a code suffix
/// on every variant.
pub open spec fn decl_complete(d: TypeDecl) -> bool {
    &&& d.app_type is Some
    &&& d.prefix is Some
    &&& forall|i: int| 0 <= i < d.variants@.len() ==> d.variants@[i].code is Some
}

/// The validated entry `e` is what the declared variant `v` yields.
pub open spec fn entry_matches(v: VariantDecl, e: VariantSchema) -> bool {
    &&& v.code is Some
    &&& e.name@ == v.name@
    &&& e.shape == v.shape
    &&& e.code_suffix@ == v.code->Some_0@
    &&& e.app_code@ == opt_text(v.app_code)
    &&& e.client_msg@ == opt_text(v.client_msg)
}

/// The validated model `m` is what the declaration `d` yields: the
/// type-level annotations carried over, and one matching entry per
/// declared variant, in order.
pub open spec fn model_matches(d: TypeDecl, m: SchemaModel) -> bool {
    &&& m.name@ == d.name@
    &&& m.generics@ == d.generics@
    &&& m.app_type@ == opt_text(d.app_type)
    &&& m.prefix@ == opt_text(d.prefix)
    &&& m.variants@.len() == d.variants@.len()
    &&& forall|i: int|
        0 <= i < d.variants@.len() ==> entry_matches(d.variants@[i], m.variants@[i])
}

impl TypeDecl {
    /// Validates the declaration. A declaration that is not a tagged
    /// union is rejected outright; one with a required annotation missing
    /// is rejected next; everything else yields the populated model, with
    /// the optional annotations defaulted to empty text.
    ///
    /// Code suffixes are deliberately not checked for uniqueness against
    /// sibling variants: two variants may compose identical codes, a
    /// footgun the author of a schema has to watch for.
    pub fn validate(&self) -> (r: Result<SchemaModel, SchemaError>)
        ensures
            !self.is_tagged_union ==> r == Err::<SchemaModel, SchemaError>(
                SchemaError::NotATaggedUnion,
            ),
            self.is_tagged_union && !decl_complete(*self) ==> r == Err::<SchemaModel, SchemaError>(
                SchemaError::MissingRequiredField,
            ),
            r is Ok <==> self.is_tagged_union && decl_complete(*self),
            r matches Ok(m) ==> model_matches(*self, m),
    {
        if !self.is_tagged_union {
            return Err(SchemaError::NotATaggedUnion);
        }
        let app_type = match &self.app_type {
            Some(t) => t.clone(),
            None => {
                return Err(SchemaError::MissingRequiredField);
            },
        };
        let prefix = match &self.prefix {
            Some(t) => t.clone(),
            None => {
                return Err(SchemaError::MissingRequiredField);
            },
        };
        let mut entries: Vec<VariantSchema> = Vec::new();
        let n = self.variants.len();
        let mut i: usize = 0;
        while i < n
            invariant
                i <= n,
                n == self.variants@.len(),
                self.is_tagged_union,
                self.app_type is Some,
                self.prefix is Some,
                app_type@ == opt_text(self.app_type),
                prefix@ == opt_text(self.prefix),
                entries@.len() == i,
                forall|k: int| 0 <= k < i ==> entry_matches(self.variants@[k], entries@[k]),
            decreases n - i,
        {
            let v = &self.variants[i];
            let code_suffix = match &v.code {
                Some(t) => t.clone(),
                None => {
                    proof {
                        assert(self.variants@[i as int].code is None);
                        assert(!decl_complete(*self));
                    }
                    return Err(SchemaError::MissingRequiredField);
                },
            };
            let app_code = match &v.app_code {
                Some(t) => t.clone(),
                None => String::new(),
            };
            let client_msg = match &v.client_msg {
                Some(t) => t.clone(),
                None => String::new(),
            };
            let name = v.name.clone();
            let shape = v.shape;
            entries.push(VariantSchema { name, shape, code_suffix, app_code, client_msg });
            i = i + 1;
        }
        proof {
            assert forall|k: int| 0 <= k < self.variants@.len() implies self.variants@[k].code
                is Some by {
                assert(entry_matches(self.variants@[k], entries@[k]));
            }
            assert(decl_complete(*self));
        }
        Ok(SchemaModel {
            name: self.name.clone(),
            generics: self.generics.clone(),
            app_type,
            prefix,
            variants: entries,
        })
    }
}

} // verus!
