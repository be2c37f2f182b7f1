//! The attribute resolver: recognized keys, ignored keys, and the
//! silent fallback to the default configuration on malformed input.

use response_derive::ast::{AttrValue, Generics, RawAttr, Span, TypeBody, TypeDecl, VariantDecl,
    VariantShape};
use response_derive::resolve::ResponseConfig;

fn attr(key: &str, value: AttrValue) -> RawAttr {
    RawAttr { key: key.to_string(), value }
}

fn default_cfg() -> ResponseConfig {
    ResponseConfig { status_code: None, error_code: None, transparent: false }
}

#[test]
fn empty_list_resolves_to_default() {
    let c = response_derive::resolve::resolve(&vec![]);
    assert_eq!(c, default_cfg());
}

#[test]
fn recognized_keys_are_resolved() {
    let c = response_derive::resolve::resolve(&vec![
        attr("status_code", AttrValue::Int(404)),
        attr("error_code", AttrValue::Str("E1".to_string())),
        attr("transparent", AttrValue::Flag),
    ]);
    assert_eq!(
        c,
        ResponseConfig {
            status_code: Some(404),
            error_code: Some("E1".to_string()),
            transparent: true,
        }
    );
}

#[test]
fn unknown_keys_are_ignored() {
    let c = response_derive::resolve::resolve(&vec![
        attr("colour", AttrValue::Str("red".to_string())),
        attr("error_code", AttrValue::Str("E2".to_string())),
        attr("weight", AttrValue::Int(7)),
    ]);
    assert_eq!(
        c,
        ResponseConfig { status_code: None, error_code: Some("E2".to_string()), transparent: false }
    );
}

#[test]
fn wrong_value_kind_falls_back_to_default() {
    let c = response_derive::resolve::resolve(&vec![
        attr("status_code", AttrValue::Str("not a number".to_string())),
        attr("error_code", AttrValue::Str("E1".to_string())),
    ]);
    assert_eq!(c, default_cfg());
}

#[test]
fn transparent_with_value_falls_back_to_default() {
    let c = response_derive::resolve::resolve(&vec![attr("transparent", AttrValue::Int(1))]);
    assert_eq!(c, default_cfg());
}

#[test]
fn duplicate_recognized_key_falls_back_to_default() {
    let c = response_derive::resolve::resolve(&vec![
        attr("status_code", AttrValue::Int(404)),
        attr("status_code", AttrValue::Int(500)),
    ]);
    assert_eq!(c, default_cfg());
}

#[test]
fn duplicate_unknown_key_is_harmless() {
    let c = response_derive::resolve::resolve(&vec![
        attr("colour", AttrValue::Int(1)),
        attr("colour", AttrValue::Int(2)),
        attr("status_code", AttrValue::Int(503)),
    ]);
    assert_eq!(
        c,
        ResponseConfig { status_code: Some(503), error_code: None, transparent: false }
    );
}

#[test]
fn out_of_range_status_is_kept_for_validation() {
    let c = response_derive::resolve::resolve(&vec![attr("status_code", AttrValue::Int(70000))]);
    assert_eq!(
        c,
        ResponseConfig { status_code: Some(70000), error_code: None, transparent: false }
    );
}

#[test]
fn malformed_attributes_still_generate_fallback_arm() {
    let d = TypeDecl {
        name: "Error".to_string(),
        generics: Generics {
            impl_generics: String::new(),
            type_generics: String::new(),
            where_clause: String::new(),
        },
        body: TypeBody::Enum(vec![VariantDecl {
            name: "A".to_string(),
            shape: VariantShape::Unit,
            attrs: vec![attr("status_code", AttrValue::Str("bad".to_string()))],
            span: Span { start: 1, end: 2 },
        }]),
        span: Span { start: 0, end: 1 },
    };
    let out = response_derive::generate::derive(&d).unwrap();
    assert!(out.contains("Self::A => \"-1\".into_response(),"));
}
