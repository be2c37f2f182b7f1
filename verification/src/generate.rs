//! The variant dispatch generator: consumes the ordered variants of a
//! sum type, resolves each one's metadata, validates it, and produces
//! one dispatch arm per variant plus the enclosing routine.
//!
//! The response-construction expression of an arm is chosen by a fixed
//! precedence: delegation when `transparent` is set; otherwise the four
//! combinations of `status_code` and `error_code` each map to one
//! strategy. A transparent variant must have exactly one unnamed field
//! to delegate to, and an explicit status code must lie in the range
//! the transport accepts; either violation aborts the whole generation
//! with a diagnostic pinned to the offending variant.

use vstd::prelude::*;

use crate::ast::{
    Diagnostic, DiagnosticKind, Generics, Span, TypeBody, TypeDecl, VariantDecl, VariantShape,
};
use crate::ir::{DispatchArm, GeneratedRoutine, Pattern, Strategy};
use crate::render;
use crate::resolve::{resolve, resolve_spec, ResponseConfig};

verus! {

/// The smallest status value the transport accepts.
pub const STATUS_MIN: u64 = 100;

/// The largest status value the transport accepts.
pub const STATUS_MAX: u64 = 999;

/// Whether an explicit status code is acceptable to the transport.
pub open spec fn valid_status(s: u64) -> bool {
    STATUS_MIN <= s <= STATUS_MAX
}

/// The pattern a variant's shape dictates. Only a delegating variant
/// with exactly one unnamed field binds that field.
pub open spec fn pattern_spec(shape: VariantShape, transparent: bool) -> Pattern {
    match shape {
        VariantShape::Unit => Pattern::Bare,
        VariantShape::Unnamed(n) => if n == 1 && transparent {
            Pattern::BindInner
        } else {
            Pattern::WildcardUnnamed
        },
        VariantShape::Named => Pattern::WildcardNamed,
    }
}

/// The strategy a configuration dictates, by the fixed precedence:
/// delegation first, then the four status/error combinations.
pub open spec fn strategy_spec(c: ResponseConfig) -> Strategy {
    if c.transparent {
        Strategy::Transparent
    } else {
        match (c.status_code, c.error_code) {
            (None, None) => Strategy::Default,
            (None, Some(e)) => Strategy::ErrorOnly(e),
            (Some(s), None) => Strategy::StatusOnly(s),
            (Some(s), Some(e)) => Strategy::StatusAndError(s, e),
        }
    }
}

/// Whether one variant passes validation: a delegating variant must
/// have exactly one unnamed field, and an explicit status code of a
/// non-delegating variant must be acceptable to the transport.
pub open spec fn variant_ok(v: VariantDecl) -> bool {
    let c = resolve_spec(v.attrs@);
    &&& c.transparent ==> v.shape == VariantShape::Unnamed(1usize)
    &&& !c.transparent ==> (c.status_code matches Some(s) ==> valid_status(s))
}

/// The failure kind of a variant that does not pass validation.
pub open spec fn variant_error_kind(v: VariantDecl) -> DiagnosticKind {
    let c = resolve_spec(v.attrs@);
    if c.transparent && v.shape != VariantShape::Unnamed(1usize) {
        DiagnosticKind::ShapeMismatch
    } else {
        DiagnosticKind::InvalidStatusCode
    }
}

/// The diagnostic reported for a variant that does not pass validation,
/// as kind, location and message text.
pub open spec fn variant_diag(v: VariantDecl) -> (DiagnosticKind, Span, Seq<char>) {
    let k = variant_error_kind(v);
    (
        k,
        v.span,
        if k == DiagnosticKind::ShapeMismatch {
            render::shape_mismatch_message(v.name@)
        } else {
            render::invalid_status_message(v.name@)
        },
    )
}

/// Whether every variant passes validation.
pub open spec fn gen_ok(vs: Seq<VariantDecl>) -> bool {
    forall|i: int| 0 <= i < vs.len() ==> variant_ok(#[trigger] vs[i])
}

/// The index of the first variant that fails validation; meaningful
/// only when some variant fails.
pub open spec fn first_bad_idx(vs: Seq<VariantDecl>) -> int
    decreases vs.len(),
{
    if vs.len() == 0 {
        0
    } else if !variant_ok(vs[0]) {
        0
    } else {
        1 + first_bad_idx(vs.drop_first())
    }
}

/// The arm generated for one variant.
pub open spec fn arm_spec(v: VariantDecl) -> DispatchArm {
    let c = resolve_spec(v.attrs@);
    DispatchArm {
        variant_name: v.name,
        pattern: pattern_spec(v.shape, c.transparent),
        response: strategy_spec(c),
    }
}

/// The arms generated for a variant list, in declaration order.
pub open spec fn arms_spec(vs: Seq<VariantDecl>) -> Seq<DispatchArm> {
    Seq::new(vs.len(), |i: int| arm_spec(vs[i]))
}

/// The outcome of the whole generation on one type declaration: the
/// rendered routine text on success, or the first diagnostic in
/// declaration order on failure.
pub open spec fn derive_spec(input: TypeDecl) -> Result<
    Seq<char>,
    (DiagnosticKind, Span, Seq<char>),
> {
    match input.body {
        TypeBody::Enum(vs) => if gen_ok(vs@) {
            Ok(render::routine_text(input.name@, input.generics, arms_spec(vs@)))
        } else {
            Err(variant_diag(vs@[first_bad_idx(vs@)]))
        },
        _ => Err(
            (DiagnosticKind::UnsupportedShape, input.span, render::unsupported_shape_message()),
        ),
    }
}

/// When some variant fails, `first_bad_idx` names the earliest failure.
proof fn lemma_first_bad_idx(vs: Seq<VariantDecl>, i: int)
    requires
        0 <= i < vs.len(),
        !variant_ok(vs[i]),
        forall|j: int| 0 <= j < i ==> variant_ok(#[trigger] vs[j]),
    ensures
        first_bad_idx(vs) == i,
        !gen_ok(vs),
    decreases i,
{
    if i > 0 {
        assert(forall|j: int|
            0 <= j < vs.len() - 1 ==> #[trigger] vs.drop_first()[j] == vs[j + 1]);
        lemma_first_bad_idx(vs.drop_first(), i - 1);
    }
}

/// Builds the diagnostic for a variant that failed validation.
fn variant_diagnostic(v: &VariantDecl, kind: DiagnosticKind) -> (d: Diagnostic)
    requires
        !variant_ok(*v),
        kind == variant_error_kind(*v),
    ensures
        (d.kind, d.span, d.message@) == variant_diag(*v),
{
    let message: String = if kind == DiagnosticKind::ShapeMismatch {
        render::render_shape_mismatch_message(&v.name)
    } else {
        render::render_invalid_status_message(&v.name)
    };
    Diagnostic { kind, span: v.span, message }
}

/// Resolves and validates every variant in order and produces one
/// dispatch arm per variant, or the diagnostic of the first variant
/// that fails validation.
pub fn derive_enum(variants: &Vec<VariantDecl>) -> (r: Result<Vec<DispatchArm>, Diagnostic>)
    ensures
        match r {
            Ok(arms) => gen_ok(variants@) && arms@ == arms_spec(variants@),
            Err(d) => {
                &&& !gen_ok(variants@)
                &&& (d.kind, d.span, d.message@) == variant_diag(
                    variants@[first_bad_idx(variants@)],
                )
            },
        },
{
    let mut arms: Vec<DispatchArm> = Vec::new();
    let mut i: usize = 0;
    while i < variants.len()
        invariant
            0 <= i <= variants@.len(),
            forall|j: int| 0 <= j < i ==> variant_ok(#[trigger] variants@[j]),
            arms@ =~= arms_spec(variants@).take(i as int),
        decreases variants@.len() - i,
    {
        let v = &variants[i];
        let c = resolve(&v.attrs);
        if c.transparent {
            let delegatable: bool = match v.shape {
                VariantShape::Unnamed(n) => n == 1,
                _ => false,
            };
            if !delegatable {
                proof {
                    lemma_first_bad_idx(variants@, i as int);
                }
                return Err(variant_diagnostic(v, DiagnosticKind::ShapeMismatch));
            }
        } else {
            let status_bad: bool = match c.status_code {
                Some(s) => s < STATUS_MIN || s > STATUS_MAX,
                None => false,
            };
            if status_bad {
                proof {
                    lemma_first_bad_idx(variants@, i as int);
                }
                return Err(variant_diagnostic(v, DiagnosticKind::InvalidStatusCode));
            }
        }
        let pattern: Pattern = match v.shape {
            VariantShape::Unit => Pattern::Bare,
            VariantShape::Unnamed(n) => if n == 1 && c.transparent {
                Pattern::BindInner
            } else {
                Pattern::WildcardUnnamed
            },
            VariantShape::Named => Pattern::WildcardNamed,
        };
        let response: Strategy = if c.transparent {
            Strategy::Transparent
        } else {
            match (c.status_code, c.error_code) {
                (None, None) => Strategy::Default,
                (None, Some(e)) => Strategy::ErrorOnly(e),
                (Some(s), None) => Strategy::StatusOnly(s),
                (Some(s), Some(e)) => Strategy::StatusAndError(s, e),
            }
        };
        let arm = DispatchArm { variant_name: v.name.clone(), pattern, response };
        proof {
            assert(arm == arm_spec(variants@[i as int]));
            assert(arms@.push(arm) =~= arms_spec(variants@).take(i + 1 as int));
        }
        arms.push(arm);
        i = i + 1;
    }
    proof {
        assert(arms_spec(variants@).take(variants@.len() as int) =~= arms_spec(variants@));
    }
    Ok(arms)
}

/// Generates the whole conversion routine for one type declaration:
/// rejects anything that is not a sum type, produces one arm per
/// variant, assembles them under the type's verbatim identity, and
/// renders the result to source text.
pub fn derive(input: &TypeDecl) -> (r: Result<String, Diagnostic>)
    ensures
        match r {
            Ok(out) => derive_spec(*input) == Ok::<Seq<char>, (DiagnosticKind, Span, Seq<char>)>(
                out@,
            ),
            Err(d) => derive_spec(*input) == Err::<Seq<char>, (DiagnosticKind, Span, Seq<char>)>(
                (d.kind, d.span, d.message@),
            ),
        },
{
    match &input.body {
        TypeBody::Enum(vs) => match derive_enum(vs) {
            Ok(arms) => {
                let routine = GeneratedRoutine {
                    enum_name: input.name.clone(),
                    generics: Generics {
                        impl_generics: input.generics.impl_generics.clone(),
                        type_generics: input.generics.type_generics.clone(),
                        where_clause: input.generics.where_clause.clone(),
                    },
                    arms,
                };
                proof {
                    assert(routine.generics == input.generics);
                }
                Ok(render::render_routine(&routine))
            },
            Err(d) => Err(d),
        },
        _ => Err(
            Diagnostic {
                kind: DiagnosticKind::UnsupportedShape,
                span: input.span,
                message: render::render_unsupported_shape_message(),
            },
        ),
    }
}

} // verus!
