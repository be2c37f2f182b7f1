//! The generated artifact, as structured data: one dispatch arm per
//! variant, assembled into a routine that carries the type's identity.

use vstd::prelude::*;

use crate::ast::Generics;

verus! {

/// The pattern of one dispatch arm, chosen from the variant's shape:
/// no binding for a fieldless variant, a binding of the single unnamed
/// field under delegation, and a wildcard capture otherwise.
#[derive(Clone, Copy, PartialEq, Eq, Structural, Debug)]
pub enum Pattern {
    Bare,
    BindInner,
    WildcardUnnamed,
    WildcardNamed,
}

/// The response-construction strategy of one dispatch arm.
#[derive(Clone, PartialEq, Eq, Debug)]
pub enum Strategy {
    /// Delegate to the bound inner value's own conversion.
    Transparent,
    /// The fallback marker response with the transport's default status.
    Default,
    /// Default status, body built from the error-code token.
    ErrorOnly(String),
    /// Explicit status, no body-level code.
    StatusOnly(u64),
    /// Explicit status and a body built from the error-code token.
    StatusAndError(u64, String),
}

/// One generated per-variant unit: a pattern paired with a
/// response-construction strategy.
#[derive(Clone, PartialEq, Eq, Debug)]
pub struct DispatchArm {
    pub variant_name: String,
    pub pattern: Pattern,
    pub response: Strategy,
}

/// The final artifact: the ordered arms inside a single exhaustive
/// dispatch, under the identity of the type they were generated for.
#[derive(Clone, PartialEq, Eq, Debug)]
pub struct GeneratedRoutine {
    pub enum_name: String,
    pub generics: Generics,
    pub arms: Vec<DispatchArm>,
}

} // verus!
