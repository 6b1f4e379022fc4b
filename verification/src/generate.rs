//! The classification generator.
//!
//! From a validated schema it emits, as source text, one classification
//! routine attached to the owning type: a `match` with one arm per
//! variant. Each arm pairs a shape-aware pattern — the bare tag for a
//! no-fields variant, the tag with every field discarded otherwise — with
//! a construction expression that builds the descriptor from the variant's
//! declared status text, the composed code `prefix ++ suffix`, the
//! declared client message, and the error value's own rendered text. The
//! routine is assembled from the same entry sequence the validator
//! produced, one arm per entry, so no variant can be silently omitted.

use vstd::prelude::*;
use vstd::string::StringExecFns;
use crate::schema::{
    FieldShape, SchemaError, SchemaModel, TypeDecl, VariantDecl, VariantSchema, decl_complete,
    entry_matches, model_matches, opt_text,
};

verus! {

/// The field-discarding tail of a variant pattern, chosen by shape alone:
/// nothing for a bare tag, `(..)` for positional fields, `{ .. }` for
/// named fields.
pub open spec fn shape_discard(shape: FieldShape) -> Seq<char> {
    match shape {
        FieldShape::Unit => Seq::empty(),
        FieldShape::Tuple => "(..)"@,
        FieldShape::Struct => " { .. }"@,
    }
}

/// The match pattern of one variant: its tag, then the field-discarding
/// tail its shape calls for.
pub open spec fn pattern_text(owner: Seq<char>, name: Seq<char>, shape: FieldShape) -> Seq<
    char,
> {
    owner + "::"@ + name + shape_discard(shape)
}

/// The construction expression of one variant: a descriptor built from the
/// declared status text, the composed code `prefix ++ suffix`, the
/// declared client message, and the error value's own rendered text.
pub open spec fn expr_text(
    prefix: Seq<char>,
    suffix: Seq<char>,
    app_code: Seq<char>,
    client_msg: Seq<char>,
) -> Seq<char> {
    "ErrorInfo::new(\""@ + app_code + "\", \""@ + prefix + suffix + "\", \""@ + client_msg
        + "\", self.to_string())"@
}

/// One arm of the classification routine: the variant's pattern paired
/// with its construction expression.
pub open spec fn arm_text(
    owner: Seq<char>,
    prefix: Seq<char>,
    name: Seq<char>,
    shape: FieldShape,
    suffix: Seq<char>,
    app_code: Seq<char>,
    client_msg: Seq<char>,
) -> Seq<char> {
    "            "@ + pattern_text(owner, name, shape) + " => "@ + expr_text(
        prefix,
        suffix,
        app_code,
        client_msg,
    ) + ",\n"@
}

/// The arm a validated entry yields.
pub open spec fn entry_arm_text(owner: Seq<char>, prefix: Seq<char>, v: VariantSchema) -> Seq<
    char,
> {
    arm_text(owner, prefix, v.name@, v.shape, v.code_suffix@, v.app_code@, v.client_msg@)
}

/// The arms of the whole routine: one per entry, in declaration order.
pub open spec fn arms_text(owner: Seq<char>, prefix: Seq<char>, vs: Seq<VariantSchema>) -> Seq<
    char,
>
    decreases vs.len(),
{
    if vs.len() == 0 {
        Seq::empty()
    } else {
        arms_text(owner, prefix, vs.drop_last()) + entry_arm_text(owner, prefix, vs.last())
    }
}

/// Everything of the emitted routine that precedes the arms.
pub open spec fn header_text(name: Seq<char>, generics: Seq<char>, app_type: Seq<char>) -> Seq<
    char,
> {
    "use error_code::{ErrorInfo, ToErrorInfo};\n\nimpl"@ + generics + " ToErrorInfo for "@ + name
        + generics + " {\n    type T = "@ + app_type
        + ";\n\n    fn to_error_info(&self) -> ErrorInfo<Self::T> {\n        match self {\n"@
}

/// Everything of the emitted routine that follows the arms.
pub open spec fn footer_text() -> Seq<char> {
    "        }\n    }\n}\n"@
}

/// The whole classification routine a validated schema prescribes.
pub open spec fn impl_text(m: SchemaModel) -> Seq<char> {
    header_text(m.name@, m.generics@, m.app_type@) + arms_text(m.name@, m.prefix@, m.variants@)
        + footer_text()
}

/// The arm a declared variant prescribes, the optional annotations
/// defaulted to empty text.
pub open spec fn decl_arm_text(owner: Seq<char>, prefix: Seq<char>, v: VariantDecl) -> Seq<
    char,
> {
    arm_text(
        owner,
        prefix,
        v.name@,
        v.shape,
        opt_text(v.code),
        opt_text(v.app_code),
        opt_text(v.client_msg),
    )
}

/// The arms a declaration's variants prescribe, in order.
pub open spec fn decl_arms_text(owner: Seq<char>, prefix: Seq<char>, vs: Seq<VariantDecl>) -> Seq<
    char,
>
    decreases vs.len(),
{
    if vs.len() == 0 {
        Seq::empty()
    } else {
        decl_arms_text(owner, prefix, vs.drop_last()) + decl_arm_text(
            owner,
            prefix,
            vs.last(),
        )
    }
}

/// The whole classification routine a complete declaration prescribes.
pub open spec fn decl_impl_text(d: TypeDecl) -> Seq<char> {
    header_text(d.name@, d.generics@, opt_text(d.app_type)) + decl_arms_text(
        d.name@,
        opt_text(d.prefix),
        d.variants@,
    ) + footer_text()
}

/// A validated model prescribes the same arms as the declaration it was
/// validated from.
proof fn lemma_arms_agree(
    owner: Seq<char>,
    prefix: Seq<char>,
    ds: Seq<VariantDecl>,
    es: Seq<VariantSchema>,
)
    requires
        es.len() == ds.len(),
        forall|i: int| 0 <= i < ds.len() ==> entry_matches(ds[i], es[i]),
    ensures
        arms_text(owner, prefix, es) == decl_arms_text(owner, prefix, ds),
    decreases ds.len(),
{
    if ds.len() > 0 {
        lemma_arms_agree(owner, prefix, ds.drop_last(), es.drop_last());
        assert(entry_matches(ds.last(), es.last()));
    }
}

/// A validated model prescribes the same routine as the declaration it
/// was validated from.
proof fn lemma_impl_text_agrees(d: TypeDecl, m: SchemaModel)
    requires
        model_matches(d, m),
    ensures
        impl_text(m) == decl_impl_text(d),
{
    lemma_arms_agree(d.name@, opt_text(d.prefix), d.variants@, m.variants@);
}

/// Law: the match pattern of a variant is chosen by its tag and its field
/// shape alone — no field content enters classification.
pub proof fn lemma_pattern_depends_on_shape_alone(
    owner: Seq<char>,
    a: VariantSchema,
    b: VariantSchema,
)
    requires
        a.name@ == b.name@,
        a.shape == b.shape,
    ensures
        pattern_text(owner, a.name@, a.shape) == pattern_text(owner, b.name@, b.shape),
{
}

/// Law: the construction expression generated for a variant carries, as
/// its code argument, exactly the type's prefix followed by the variant's
/// declared suffix.
pub proof fn lemma_expr_code_is_prefix_plus_suffix(
    prefix: Seq<char>,
    suffix: Seq<char>,
    app_code: Seq<char>,
    client_msg: Seq<char>,
)
    ensures
        expr_text(prefix, suffix, app_code, client_msg) == "ErrorInfo::new(\""@ + app_code
            + "\", \""@ + (prefix + suffix) + "\", \""@ + client_msg + "\", self.to_string())"@,
{
    assert(expr_text(prefix, suffix, app_code, client_msg) =~= "ErrorInfo::new(\""@ + app_code
        + "\", \""@ + (prefix + suffix) + "\", \""@ + client_msg + "\", self.to_string())"@);
}

/// Builds the match pattern of one validated entry.
pub fn variant_pattern(owner: &str, v: &VariantSchema) -> (r: String)
    ensures
        r@ == pattern_text(owner@, v.name@, v.shape),
{
    let mut out = String::from_str(owner);
    out.append("::");
    out.append(v.name.as_str());
    match v.shape {
        FieldShape::Unit => {},
        FieldShape::Tuple => out.append("(..)"),
        FieldShape::Struct => out.append(" { .. }"),
    }
    proof {
        assert(out@ =~= pattern_text(owner@, v.name@, v.shape));
    }
    out
}

/// Builds the construction expression of one validated entry.
pub fn variant_expr(prefix: &str, v: &VariantSchema) -> (r: String)
    ensures
        r@ == expr_text(prefix@, v.code_suffix@, v.app_code@, v.client_msg@),
{
    let mut out = String::from_str("ErrorInfo::new(\"");
    out.append(v.app_code.as_str());
    out.append("\", \"");
    out.append(prefix);
    out.append(v.code_suffix.as_str());
    out.append("\", \"");
    out.append(v.client_msg.as_str());
    out.append("\", self.to_string())");
    proof {
        assert(out@ =~= expr_text(prefix@, v.code_suffix@, v.app_code@, v.client_msg@));
    }
    out
}

/// Builds one arm of the classification routine.
pub fn variant_arm(owner: &str, prefix: &str, v: &VariantSchema) -> (r: String)
    ensures
        r@ == entry_arm_text(owner@, prefix@, *v),
{
    let mut out = String::from_str("            ");
    let pat = variant_pattern(owner, v);
    out.append(pat.as_str());
    out.append(" => ");
    let expr = variant_expr(prefix, v);
    out.append(expr.as_str());
    out.append(",\n");
    proof {
        assert(out@ =~= entry_arm_text(owner@, prefix@, *v));
    }
    out
}

/// Emits the whole classification routine a validated schema prescribes:
/// one arm per entry, in declaration order, wrapped in the capability
/// `impl` attached to the owning type.
pub fn generate_impl(m: &SchemaModel) -> (r: String)
    ensures
        r@ == impl_text(*m),
{
    let mut out = String::from_str("use error_code::{ErrorInfo, ToErrorInfo};\n\nimpl");
    out.append(m.generics.as_str());
    out.append(" ToErrorInfo for ");
    out.append(m.name.as_str());
    out.append(m.generics.as_str());
    out.append(" {\n    type T = ");
    out.append(m.app_type.as_str());
    out.append(";\n\n    fn to_error_info(&self) -> ErrorInfo<Self::T> {\n        match self {\n");
    proof {
        assert(out@ =~= header_text(m.name@, m.generics@, m.app_type@));
    }
    let n = m.variants.len();
    let mut i: usize = 0;
    while i < n
        invariant
            i <= n,
            n == m.variants@.len(),
            out@ == header_text(m.name@, m.generics@, m.app_type@) + arms_text(
                m.name@,
                m.prefix@,
                m.variants@.subrange(0, i as int),
            ),
        decreases n - i,
    {
        let arm = variant_arm(m.name.as_str(), m.prefix.as_str(), &m.variants[i]);
        out.append(arm.as_str());
        i = i + 1;
        proof {
            let t = m.variants@.subrange(0, i as int);
            assert(t.drop_last() =~= m.variants@.subrange(0, i as int - 1));
            assert(t.last() == m.variants@[i as int - 1]);
        }
    }
    out.append("        }\n    }\n}\n");
    proof {
        assert(m.variants@.subrange(0, n as int) =~= m.variants@);
        assert(out@ =~= impl_text(*m));
    }
    out
}

/// Validates a declaration and, when it is a complete tagged-union
/// schema, emits the classification routine it prescribes. A declaration
/// that is not a tagged union, or that lacks a required annotation, is
/// rejected with the corresponding schema error and nothing is emitted.
pub fn process_error_info(decl: &TypeDecl) -> (r: Result<String, SchemaError>)
    ensures
        !decl.is_tagged_union ==> r == Err::<String, SchemaError>(SchemaError::NotATaggedUnion),
        decl.is_tagged_union && !decl_complete(*decl) ==> r == Err::<String, SchemaError>(
            SchemaError::MissingRequiredField,
        ),
        r is Ok <==> decl.is_tagged_union && decl_complete(*decl),
        r matches Ok(s) ==> s@ == decl_impl_text(*decl),
{
    let model = match decl.validate() {
        Ok(m) => m,
        Err(e) => {
            return Err(e);
        },
    };
    let out = generate_impl(&model);
    proof {
        lemma_impl_text_agrees(*decl, model);
    }
    Ok(out)
}

} // verus!
