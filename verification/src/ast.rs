//! The structured description of one sum-type declaration, as the host
//! hands it over, and the diagnostics handed back on failure.

use vstd::prelude::*;

verus! {

/// A location in the host's source text, carried through unchanged so a
/// diagnostic can point at the declaration it concerns.
#[derive(Clone, Copy, PartialEq, Eq, Structural, Debug)]
pub struct Span {
    pub start: u64,
    pub end: u64,
}

/// The value attached to one raw annotation key.
///
/// `Flag` stands for a bare key with no value; its presence is the value.
#[derive(Clone, PartialEq, Eq, Debug)]
pub enum AttrValue {
    Int(u64),
    Str(String),
    Flag,
}

/// One raw key/value annotation pair attached to a variant.
#[derive(Clone, PartialEq, Eq, Debug)]
pub struct RawAttr {
    pub key: String,
    pub value: AttrValue,
}

/// The field shape of one variant: no fields, a count of unnamed fields,
/// or named fields.
#[derive(Clone, Copy, PartialEq, Eq, Structural, Debug)]
pub enum VariantShape {
    Unit,
    Unnamed(usize),
    Named,
}

/// One case of the sum type under generation.
#[derive(Clone, PartialEq, Eq, Debug)]
pub struct VariantDecl {
    pub name: String,
    pub shape: VariantShape,
    pub attrs: Vec<RawAttr>,
    pub span: Span,
}

/// The generic context of the type, already rendered to text by the
/// host; it is spliced verbatim into the generated routine's header.
/// Each piece is empty when the type has no such clause.
#[derive(Clone, PartialEq, Eq, Debug)]
pub struct Generics {
    pub impl_generics: String,
    pub type_generics: String,
    pub where_clause: String,
}

/// The body of the declaration: only a sum type can be generated for;
/// the other kinds are rejected up front.
#[derive(Clone, PartialEq, Eq, Debug)]
pub enum TypeBody {
    Enum(Vec<VariantDecl>),
    Struct,
    Union,
}

/// One whole type declaration as handed over by the host.
#[derive(Clone, PartialEq, Eq, Debug)]
pub struct TypeDecl {
    pub name: String,
    pub generics: Generics,
    pub body: TypeBody,
    pub span: Span,
}

/// The kinds of fatal generation failure.
#[derive(Clone, Copy, PartialEq, Eq, Structural, Debug)]
pub enum DiagnosticKind {
    /// Generation was invoked on something that is not a sum type.
    UnsupportedShape,
    /// An explicit status code lies outside the range the transport accepts.
    InvalidStatusCode,
    /// A transparent variant cannot supply exactly one unnamed field.
    ShapeMismatch,
}

/// A generation-time failure: a kind, the location it is pinned to, and
/// a human-readable message naming the offending variant or type.
#[derive(Clone, PartialEq, Eq, Debug)]
pub struct Diagnostic {
    pub kind: DiagnosticKind,
    pub span: Span,
    pub message: String,
}

} // verus!
