//! Build-time generator of protocol-response conversion routines.
//!
//! Given the description of a sum type whose variants carry optional
//! response metadata (`status_code`, `error_code`, `transparent`), the
//! library emits the source text of a conversion routine: one dispatch
//! arm per variant, each wired to a response-construction expression
//! chosen by a fixed precedence over the variant's metadata. Generation
//! is a pure function of the type description; fatal conditions are
//! reported as diagnostics pinned to a source location, never deferred
//! to the generated code's run time.

pub mod ast;
pub mod generate;
pub mod ir;
pub mod laws;
pub mod render;
pub mod resolve;

