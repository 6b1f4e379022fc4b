use error_code::generate::process_error_info;
use error_code::schema::{FieldShape, SchemaError, TypeDecl, VariantDecl};

fn variant(
    name: &str,
    shape: FieldShape,
    code: Option<&str>,
    app_code: Option<&str>,
    client_msg: Option<&str>,
) -> VariantDecl {
    VariantDecl {
        name: name.to_string(),
        shape,
        code: code.map(|s| s.to_string()),
        app_code: app_code.map(|s| s.to_string()),
        client_msg: client_msg.map(|s| s.to_string()),
    }
}

fn my_error_decl() -> TypeDecl {
    TypeDecl {
        name: "MyError".to_string(),
        generics: String::new(),
        is_tagged_union: true,
        app_type: Some("http::StatusCode".to_string()),
        prefix: Some("01".to_string()),
        variants: vec![
            variant("InvalidCommand", FieldShape::Tuple, Some("IC"), Some("400"), None),
            variant(
                "InvalidArgument",
                FieldShape::Tuple,
                Some("IA"),
                Some("400"),
                Some("friendly msg"),
            ),
            variant("RespError", FieldShape::Tuple, Some("RE"), Some("500"), None),
        ],
    }
}

#[test]
fn test_data_struct() {
    let decl = my_error_decl();
    let info = decl.validate().unwrap();
    println!("{:#?}", info);

    assert_eq!(info.name, "MyError");
    assert_eq!(info.prefix, "01");

    let code = process_error_info(&decl).unwrap();

    println!("{}", code);
}

#[test]
fn test_generated_routine_exact() {
    let decl = TypeDecl {
        name: "AppError".to_string(),
        generics: String::new(),
        is_tagged_union: true,
        app_type: Some("u16".to_string()),
        prefix: Some("01".to_string()),
        variants: vec![variant(
            "InvalidCommand",
            FieldShape::Tuple,
            Some("IC"),
            Some("400"),
            None,
        )],
    };
    let out = process_error_info(&decl).unwrap();
    let expected = "use error_code::{ErrorInfo, ToErrorInfo};\n\n\
impl ToErrorInfo for AppError {\n    type T = u16;\n\n    \
fn to_error_info(&self) -> ErrorInfo<Self::T> {\n        match self {\n            \
AppError::InvalidCommand(..) => ErrorInfo::new(\"400\", \"01IC\", \"\", self.to_string()),\n        \
}\n    }\n}\n";
    assert_eq!(out, expected);
}

#[test]
fn test_generated_code_is_prefix_plus_suffix() {
    let decl = my_error_decl();
    let out = process_error_info(&decl).unwrap();
    assert!(out.contains("\"01IC\""));
    assert!(out.contains("\"01IA\""));
    assert!(out.contains("\"01RE\""));
}

#[test]
fn test_three_shapes_patterns() {
    let decl = TypeDecl {
        name: "E".to_string(),
        generics: String::new(),
        is_tagged_union: true,
        app_type: Some("u16".to_string()),
        prefix: Some("0A".to_string()),
        variants: vec![
            variant("Bare", FieldShape::Unit, Some("BA"), Some("500"), None),
            variant("Pos", FieldShape::Tuple, Some("PO"), Some("400"), None),
            variant("Named", FieldShape::Struct, Some("NA"), Some("404"), None),
        ],
    };
    let out = process_error_info(&decl).unwrap();
    assert!(out.contains("E::Bare => "));
    assert!(out.contains("E::Pos(..) => "));
    assert!(out.contains("E::Named { .. } => "));
}

#[test]
fn test_generics_carried_through() {
    let decl = TypeDecl {
        name: "Wrap".to_string(),
        generics: "<T>".to_string(),
        is_tagged_union: true,
        app_type: Some("u16".to_string()),
        prefix: Some("02".to_string()),
        variants: vec![variant("Inner", FieldShape::Tuple, Some("IN"), Some("500"), None)],
    };
    let out = process_error_info(&decl).unwrap();
    assert!(out.contains("impl<T> ToErrorInfo for Wrap<T> {"));
}

#[test]
fn test_not_tagged_union_rejected() {
    let decl = TypeDecl {
        name: "NotAnEnum".to_string(),
        generics: String::new(),
        is_tagged_union: false,
        app_type: Some("u16".to_string()),
        prefix: Some("01".to_string()),
        variants: vec![],
    };
    assert_eq!(process_error_info(&decl), Err(SchemaError::NotATaggedUnion));
    assert_eq!(decl.validate().unwrap_err(), SchemaError::NotATaggedUnion);
}

#[test]
fn test_missing_app_type_rejected() {
    let mut decl = my_error_decl();
    decl.app_type = None;
    assert_eq!(process_error_info(&decl), Err(SchemaError::MissingRequiredField));
}

#[test]
fn test_missing_prefix_rejected() {
    let mut decl = my_error_decl();
    decl.prefix = None;
    assert_eq!(process_error_info(&decl), Err(SchemaError::MissingRequiredField));
}

#[test]
fn test_missing_code_suffix_rejected() {
    let mut decl = my_error_decl();
    decl.variants[1].code = None;
    assert_eq!(process_error_info(&decl), Err(SchemaError::MissingRequiredField));
}

#[test]
fn test_omitted_client_message_defaults_empty() {
    let decl = my_error_decl();
    let model = decl.validate().unwrap();
    assert_eq!(model.variants[0].client_msg, "");
    assert_eq!(model.variants[1].client_msg, "friendly msg");
    assert_eq!(model.variants[2].client_msg, "");
}

#[test]
fn test_duplicate_suffixes_not_rejected() {
    let decl = TypeDecl {
        name: "Dup".to_string(),
        generics: String::new(),
        is_tagged_union: true,
        app_type: Some("u16".to_string()),
        prefix: Some("01".to_string()),
        variants: vec![
            variant("First", FieldShape::Unit, Some("DU"), Some("400"), None),
            variant("Second", FieldShape::Unit, Some("DU"), Some("500"), None),
        ],
    };
    let model = decl.validate().unwrap();
    assert_eq!(model.variants[0].code_suffix, model.variants[1].code_suffix);
    assert!(process_error_info(&decl).is_ok());
}

#[test]
fn test_empty_union_generates_empty_match() {
    let decl = TypeDecl {
        name: "Never".to_string(),
        generics: String::new(),
        is_tagged_union: true,
        app_type: Some("u16".to_string()),
        prefix: Some("01".to_string()),
        variants: vec![],
    };
    let out = process_error_info(&decl).unwrap();
    assert!(out.contains("match self {\n        }"));
}
