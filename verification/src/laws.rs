//! Laws of the generator, stated and proved over the same spec
//! functions that the executable functions' contracts use.

use vstd::prelude::*;

use crate::ast::{TypeDecl, VariantDecl, VariantShape};
use crate::generate::{
    arm_spec, arms_spec, derive_spec, gen_ok, strategy_spec, variant_ok,
};
use crate::ir::Pattern;
use crate::render::response_text;
use crate::resolve::{default_config, resolve_spec};

verus! {

/// A variant whose annotations resolve to the all-default
/// configuration — in particular any variant with no annotations at
/// all — passes validation and gets the fallback response.
pub proof fn lemma_default_config_default_response(v: VariantDecl)
    requires
        resolve_spec(v.attrs@) == default_config(),
    ensures
        variant_ok(v),
        arm_spec(v).response is Default,
{
}

/// A sum type whose variants all resolve to the default configuration
/// generates successfully, and every arm carries the fallback response.
pub proof fn lemma_all_default_variants(vs: Seq<VariantDecl>)
    requires
        forall|i: int| 0 <= i < vs.len() ==> resolve_spec(#[trigger] vs[i].attrs@)
            == default_config(),
    ensures
        gen_ok(vs),
        arms_spec(vs).len() == vs.len(),
        forall|i: int| 0 <= i < vs.len() ==> #[trigger] arms_spec(vs)[i].response is Default,
{
    assert forall|i: int| 0 <= i < vs.len() implies variant_ok(#[trigger] vs[i]) by {
        lemma_default_config_default_response(vs[i]);
    }
    assert forall|i: int|
        0 <= i < vs.len() implies #[trigger] arms_spec(vs)[i].response is Default by {
        lemma_default_config_default_response(vs[i]);
    }
}

/// A delegating variant with exactly one unnamed field passes
/// validation; its arm binds that field and its response-construction
/// expression is exactly the delegation to the bound value's own
/// conversion — nothing of the variant's other metadata reaches it.
pub proof fn lemma_transparent_delegation(v: VariantDecl)
    requires
        resolve_spec(v.attrs@).transparent,
        v.shape == VariantShape::Unnamed(1usize),
    ensures
        variant_ok(v),
        arm_spec(v).pattern == Pattern::BindInner,
        arm_spec(v).response is Transparent,
        response_text(arm_spec(v).response) == "error.into_response()"@,
{
}

/// Generation is a pure function of its input: identical declarations
/// give identical outcomes, so invoking it twice cannot differ.
pub proof fn lemma_generation_deterministic(a: TypeDecl, b: TypeDecl)
    requires
        a == b,
    ensures
        derive_spec(a) == derive_spec(b),
{
}

/// Arm ordering: one arm per variant, in declaration order, whatever
/// the variants' annotations hold.
pub proof fn lemma_arm_order(vs: Seq<VariantDecl>)
    ensures
        arms_spec(vs).len() == vs.len(),
        forall|i: int| 0 <= i < vs.len() ==> #[trigger] arms_spec(vs)[i].variant_name == vs[i].name,
{
}

/// The strategy mapping is total: every configuration yields exactly
/// one of the five response forms.
pub proof fn lemma_strategy_total(c: crate::resolve::ResponseConfig)
    ensures
        strategy_spec(c) is Transparent || strategy_spec(c) is Default || strategy_spec(c)
            is ErrorOnly || strategy_spec(c) is StatusOnly || strategy_spec(c) is StatusAndError,
{
}

} // verus!
