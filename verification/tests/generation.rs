//! Successful generation: one arm per variant, each response-construction
//! expression chosen by the fixed precedence over the variant's metadata.

use response_derive::ast::{
    AttrValue, Generics, RawAttr, Span, TypeBody, TypeDecl, VariantDecl, VariantShape,
};

fn no_generics() -> Generics {
    Generics {
        impl_generics: String::new(),
        type_generics: String::new(),
        where_clause: String::new(),
    }
}

fn decl(name: &str, variants: Vec<VariantDecl>) -> TypeDecl {
    TypeDecl {
        name: name.to_string(),
        generics: no_generics(),
        body: TypeBody::Enum(variants),
        span: Span { start: 10, end: 20 },
    }
}

fn variant(name: &str, shape: VariantShape, attrs: Vec<RawAttr>) -> VariantDecl {
    VariantDecl { name: name.to_string(), shape, attrs, span: Span { start: 100, end: 110 } }
}

fn attr(key: &str, value: AttrValue) -> RawAttr {
    RawAttr { key: key.to_string(), value }
}

fn expected_routine(head: &str, arms: &[&str]) -> String {
    let mut s = format!(
        "impl axum::response::IntoResponse for {} {{\n    fn into_response(self) -> axum::response::Response {{\n        match self {{\n",
        head
    );
    for a in arms {
        s.push_str("            ");
        s.push_str(a);
        s.push_str(",\n");
    }
    s.push_str("        }\n    }\n}\n");
    s
}

#[test]
fn default_variants_generate_fallback() {
    let d = decl(
        "Error",
        vec![
            variant("A", VariantShape::Unit, vec![]),
            variant("B", VariantShape::Unit, vec![]),
        ],
    );
    let out = response_derive::generate::derive(&d).unwrap();
    let expected = expected_routine(
        "Error",
        &[
            "Self::A => \"-1\".into_response()",
            "Self::B => \"-1\".into_response()",
        ],
    );
    assert_eq!(out, expected);
}

#[test]
fn error_code_only_uses_default_status() {
    let d = decl(
        "Error",
        vec![variant(
            "A",
            VariantShape::Unit,
            vec![attr("error_code", AttrValue::Str("E1".to_string()))],
        )],
    );
    let out = response_derive::generate::derive(&d).unwrap();
    let expected = expected_routine("Error", &["Self::A => \"E1\".into_response()"]);
    assert_eq!(out, expected);
}

#[test]
fn status_code_only_sets_status() {
    let d = decl(
        "Error",
        vec![variant(
            "A",
            VariantShape::Unit,
            vec![attr("status_code", AttrValue::Int(404))],
        )],
    );
    let out = response_derive::generate::derive(&d).unwrap();
    let expected = expected_routine(
        "Error",
        &["Self::A => axum::http::StatusCode::from_u16(404u16).expect(\"invalid status_code\").into_response()"],
    );
    assert_eq!(out, expected);
}

#[test]
fn status_and_error_code_build_pair() {
    let d = decl(
        "Error",
        vec![variant(
            "A",
            VariantShape::Unit,
            vec![
                attr("status_code", AttrValue::Int(404)),
                attr("error_code", AttrValue::Str("E1".to_string())),
            ],
        )],
    );
    let out = response_derive::generate::derive(&d).unwrap();
    let expected = expected_routine(
        "Error",
        &["Self::A => (axum::http::StatusCode::from_u16(404u16).expect(\"invalid status_code\"), \"E1\").into_response()"],
    );
    assert_eq!(out, expected);
}

#[test]
fn transparent_delegates_to_inner() {
    let d = decl(
        "Error",
        vec![variant(
            "Inner",
            VariantShape::Unnamed(1),
            vec![attr("transparent", AttrValue::Flag)],
        )],
    );
    let out = response_derive::generate::derive(&d).unwrap();
    let expected = expected_routine("Error", &["Self::Inner(error) => error.into_response()"]);
    assert_eq!(out, expected);
}

#[test]
fn transparent_ignores_status_and_error_code() {
    let d = decl(
        "Error",
        vec![variant(
            "Inner",
            VariantShape::Unnamed(1),
            vec![
                attr("transparent", AttrValue::Flag),
                attr("status_code", AttrValue::Int(70000)),
                attr("error_code", AttrValue::Str("E9".to_string())),
            ],
        )],
    );
    let out = response_derive::generate::derive(&d).unwrap();
    let expected = expected_routine("Error", &["Self::Inner(error) => error.into_response()"]);
    assert_eq!(out, expected);
}

#[test]
fn unnamed_fields_without_transparent_use_wildcard() {
    let d = decl(
        "Error",
        vec![
            variant("One", VariantShape::Unnamed(1), vec![]),
            variant("Two", VariantShape::Unnamed(2), vec![]),
        ],
    );
    let out = response_derive::generate::derive(&d).unwrap();
    let expected = expected_routine(
        "Error",
        &[
            "Self::One(..) => \"-1\".into_response()",
            "Self::Two(..) => \"-1\".into_response()",
        ],
    );
    assert_eq!(out, expected);
}

#[test]
fn named_fields_use_brace_wildcard() {
    let d = decl("Error", vec![variant("Named", VariantShape::Named, vec![])]);
    let out = response_derive::generate::derive(&d).unwrap();
    let expected = expected_routine("Error", &["Self::Named{..} => \"-1\".into_response()"]);
    assert_eq!(out, expected);
}

#[test]
fn arms_follow_declaration_order() {
    let d = decl(
        "Error",
        vec![
            variant("A", VariantShape::Unit, vec![attr("status_code", AttrValue::Int(500))]),
            variant("B", VariantShape::Unnamed(1), vec![attr("transparent", AttrValue::Flag)]),
            variant("C", VariantShape::Unit, vec![]),
        ],
    );
    let out = response_derive::generate::derive(&d).unwrap();
    let expected = expected_routine(
        "Error",
        &[
            "Self::A => axum::http::StatusCode::from_u16(500u16).expect(\"invalid status_code\").into_response()",
            "Self::B(error) => error.into_response()",
            "Self::C => \"-1\".into_response()",
        ],
    );
    assert_eq!(out, expected);
}

#[test]
fn generation_is_idempotent() {
    let build = || {
        decl(
            "Error",
            vec![
                variant("A", VariantShape::Unit, vec![attr("error_code", AttrValue::Str("E1".to_string()))]),
                variant("B", VariantShape::Unnamed(1), vec![attr("transparent", AttrValue::Flag)]),
            ],
        )
    };
    let first = response_derive::generate::derive(&build()).unwrap();
    let second = response_derive::generate::derive(&build()).unwrap();
    assert_eq!(first, second);
}

#[test]
fn generics_are_spliced_verbatim() {
    let d = TypeDecl {
        name: "Error".to_string(),
        generics: Generics {
            impl_generics: "<T: Clone>".to_string(),
            type_generics: "<T>".to_string(),
            where_clause: "where T: Send".to_string(),
        },
        body: TypeBody::Enum(vec![variant("A", VariantShape::Unit, vec![])]),
        span: Span { start: 10, end: 20 },
    };
    let out = response_derive::generate::derive(&d).unwrap();
    let expected = expected_routine(
        "<T: Clone> Error<T> where T: Send",
        &["Self::A => \"-1\".into_response()"],
    );
    assert_eq!(out, expected);
}

#[test]
fn status_range_edges_are_accepted() {
    let d = decl(
        "Error",
        vec![
            variant("Low", VariantShape::Unit, vec![attr("status_code", AttrValue::Int(100))]),
            variant("High", VariantShape::Unit, vec![attr("status_code", AttrValue::Int(999))]),
        ],
    );
    let out = response_derive::generate::derive(&d).unwrap();
    let expected = expected_routine(
        "Error",
        &[
            "Self::Low => axum::http::StatusCode::from_u16(100u16).expect(\"invalid status_code\").into_response()",
            "Self::High => axum::http::StatusCode::from_u16(999u16).expect(\"invalid status_code\").into_response()",
        ],
    );
    assert_eq!(out, expected);
}

#[test]
fn error_code_literal_is_escaped() {
    let d = decl(
        "Error",
        vec![variant(
            "A",
            VariantShape::Unit,
            vec![attr("error_code", AttrValue::Str("say \"hi\"\\".to_string()))],
        )],
    );
    let out = response_derive::generate::derive(&d).unwrap();
    let expected = expected_routine(
        "Error",
        &["Self::A => \"say \\\"hi\\\"\\\\\".into_response()"],
    );
    assert_eq!(out, expected);
}

#[test]
fn empty_enum_generates_empty_dispatch() {
    let d = decl("Error", vec![]);
    let out = response_derive::generate::derive(&d).unwrap();
    let expected = expected_routine("Error", &[]);
    assert_eq!(out, expected);
}
