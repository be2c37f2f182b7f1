//! The attribute resolver: turns the raw annotation pairs of one variant
//! into a normalized `ResponseConfig`, applying defaults.
//!
//! Recognized keys are `status_code` (integer), `error_code` (string)
//! and `transparent` (bare flag). Unrecognized keys are ignored. When
//! the annotations are structurally malformed — a recognized key with a
//! value of the wrong kind, or a recognized key given twice — resolution
//! falls back silently to the all-default configuration rather than
//! failing: a best-effort policy kept for compatibility.

use vstd::prelude::*;

use crate::ast::{AttrValue, RawAttr};

verus! {

/// Normalized per-variant metadata. Exactly one response-construction
/// strategy is derivable from any value of this record; range checks on
/// `status_code` are the dispatch generator's job, not the resolver's.
#[derive(Clone, PartialEq, Eq, Debug)]
pub struct ResponseConfig {
    pub status_code: Option<u64>,
    pub error_code: Option<String>,
    pub transparent: bool,
}

/// The configuration a variant gets when it carries no usable metadata.
pub open spec fn default_config() -> ResponseConfig {
    ResponseConfig { status_code: None, error_code: None, transparent: false }
}

/// Whether a key is one the resolver gives meaning to.
pub open spec fn is_recognized(k: Seq<char>) -> bool {
    k == "status_code"@ || k == "error_code"@ || k == "transparent"@
}

/// A recognized key carrying a value of the wrong kind.
pub open spec fn attr_malformed(a: RawAttr) -> bool {
    ||| (a.key@ == "status_code"@ && !(a.value is Int))
    ||| (a.key@ == "error_code"@ && !(a.value is Str))
    ||| (a.key@ == "transparent"@ && !(a.value is Flag))
}

/// The value under the first occurrence of a key, if any.
pub open spec fn lookup(attrs: Seq<RawAttr>, k: Seq<char>) -> Option<AttrValue>
    decreases attrs.len(),
{
    if attrs.len() == 0 {
        None
    } else if attrs[0].key@ == k {
        Some(attrs[0].value)
    } else {
        lookup(attrs.drop_first(), k)
    }
}

/// A recognized key that occurs more than once.
pub open spec fn has_duplicate_recognized(attrs: Seq<RawAttr>) -> bool {
    exists|i: int, j: int|
        0 <= i < j < attrs.len() && is_recognized(#[trigger] attrs[i].key@) && attrs[i].key@
            == #[trigger] attrs[j].key@
}

/// Structural well-formedness of a variant's annotation list: every
/// recognized key carries a value of the right kind, and none repeats.
pub open spec fn attrs_well_formed(attrs: Seq<RawAttr>) -> bool {
    &&& forall|i: int| 0 <= i < attrs.len() ==> !attr_malformed(#[trigger] attrs[i])
    &&& !has_duplicate_recognized(attrs)
}

/// The resolved explicit status code, when well formed.
pub open spec fn status_of(attrs: Seq<RawAttr>) -> Option<u64> {
    match lookup(attrs, "status_code"@) {
        Some(AttrValue::Int(n)) => Some(n),
        _ => None,
    }
}

/// The resolved error-code token, when well formed.
pub open spec fn error_code_of(attrs: Seq<RawAttr>) -> Option<String> {
    match lookup(attrs, "error_code"@) {
        Some(AttrValue::Str(s)) => Some(s),
        _ => None,
    }
}

/// Whether the delegation flag is present, when well formed.
pub open spec fn transparent_of(attrs: Seq<RawAttr>) -> bool {
    lookup(attrs, "transparent"@) matches Some(AttrValue::Flag)
}

/// What resolution returns: the recognized values when the list is well
/// formed, the all-default configuration otherwise.
pub open spec fn resolve_spec(attrs: Seq<RawAttr>) -> ResponseConfig {
    if attrs_well_formed(attrs) {
        ResponseConfig {
            status_code: status_of(attrs),
            error_code: error_code_of(attrs),
            transparent: transparent_of(attrs),
        }
    } else {
        default_config()
    }
}

/// Appending one pair changes a lookup only where the key was absent.
proof fn lemma_lookup_push(attrs: Seq<RawAttr>, a: RawAttr, k: Seq<char>)
    ensures
        lookup(attrs.push(a), k) == (if lookup(attrs, k) is Some {
            lookup(attrs, k)
        } else if a.key@ == k {
            Some(a.value)
        } else {
            None::<AttrValue>
        }),
    decreases attrs.len(),
{
    let p = attrs.push(a);
    if attrs.len() == 0 {
        assert(p[0] == a);
        if a.key@ != k {
            assert(p.drop_first() =~= Seq::<RawAttr>::empty());
            assert(lookup(p, k) == lookup(p.drop_first(), k));
        }
    } else {
        assert(p[0] == attrs[0]);
        assert(p.drop_first() =~= attrs.drop_first().push(a));
        lemma_lookup_push(attrs.drop_first(), a, k);
        if attrs[0].key@ == k {
            assert(lookup(p, k) == Some(attrs[0].value));
            assert(lookup(attrs, k) == Some(attrs[0].value));
        } else {
            assert(lookup(p, k) == lookup(attrs.drop_first().push(a), k));
            assert(lookup(attrs, k) == lookup(attrs.drop_first(), k));
        }
    }
}

/// A lookup succeeds exactly when some pair carries the key.
proof fn lemma_lookup_some(attrs: Seq<RawAttr>, k: Seq<char>)
    ensures
        (lookup(attrs, k) is Some) <==> (exists|i: int|
            0 <= i < attrs.len() && #[trigger] attrs[i].key@ == k),
    decreases attrs.len(),
{
    if attrs.len() > 0 {
        lemma_lookup_some(attrs.drop_first(), k);
        if attrs[0].key@ != k && lookup(attrs.drop_first(), k) is Some {
            let i = choose|i: int|
                0 <= i < attrs.drop_first().len() && #[trigger] attrs.drop_first()[i].key@ == k;
            assert(attrs[i + 1].key@ == k);
        }
        if exists|i: int| 0 <= i < attrs.len() && #[trigger] attrs[i].key@ == k {
            let i = choose|i: int| 0 <= i < attrs.len() && #[trigger] attrs[i].key@ == k;
            if attrs[0].key@ != k {
                assert(attrs.drop_first()[i - 1].key@ == k);
            }
        }
    }
}

/// Appending one pair keeps the list well formed exactly when the pair
/// itself is sound and its key, if recognized, is new.
proof fn lemma_wf_push(attrs: Seq<RawAttr>, a: RawAttr)
    ensures
        attrs_well_formed(attrs.push(a)) <==> (attrs_well_formed(attrs) && !attr_malformed(a) && !(
        is_recognized(a.key@) && lookup(attrs, a.key@) is Some)),
{
    let p = attrs.push(a);
    let n = attrs.len() as int;
    lemma_lookup_some(attrs, a.key@);
    assert(p[n] == a);
    assert(forall|i: int| 0 <= i < n ==> #[trigger] p[i] == attrs[i]);
    if attrs_well_formed(p) {
        assert forall|i: int| 0 <= i < n implies !attr_malformed(#[trigger] attrs[i]) by {
            assert(p[i] == attrs[i]);
            assert(!attr_malformed(p[i]));
        }
        if has_duplicate_recognized(attrs) {
            let (x, y) = choose|x: int, y: int|
                0 <= x < y < attrs.len() && is_recognized(#[trigger] attrs[x].key@) && attrs[x].key@
                    == #[trigger] attrs[y].key@;
            assert(is_recognized(p[x].key@) && p[x].key@ == p[y].key@);
            assert(has_duplicate_recognized(p));
        }
        if is_recognized(a.key@) && lookup(attrs, a.key@) is Some {
            let x = choose|i: int| 0 <= i < attrs.len() && #[trigger] attrs[i].key@ == a.key@;
            assert(is_recognized(p[x].key@) && p[x].key@ == p[n].key@);
            assert(has_duplicate_recognized(p));
        }
    }
    if attrs_well_formed(attrs) && !attr_malformed(a) && !(is_recognized(a.key@) && lookup(
        attrs,
        a.key@,
    ) is Some) {
        assert forall|i: int| 0 <= i < p.len() implies !attr_malformed(#[trigger] p[i]) by {
            if i < n {
                assert(p[i] == attrs[i]);
                assert(!attr_malformed(attrs[i]));
            }
        }
        if has_duplicate_recognized(p) {
            let (x, y) = choose|x: int, y: int|
                0 <= x < y < p.len() && is_recognized(#[trigger] p[x].key@) && p[x].key@
                    == #[trigger] p[y].key@;
            if y < n {
                assert(is_recognized(attrs[x].key@) && attrs[x].key@ == attrs[y].key@);
                assert(has_duplicate_recognized(attrs));
            } else {
                assert(attrs[x].key@ == a.key@);
            }
        }
        assert(attrs_well_formed(p));
    }
}

/// Equality of a key with a literal, stated over the views.
fn key_is(k: &String, lit: &str) -> (r: bool)
    ensures
        r == (k@ == lit@),
{
    let s: String = String::from_str(lit);
    *k == s
}

/// Resolves one variant's raw annotation list to its configuration.
pub fn resolve(attrs: &Vec<RawAttr>) -> (c: ResponseConfig)
    ensures
        c == resolve_spec(attrs@),
{
    let mut status: Option<u64> = None;
    let mut error: Option<String> = None;
    let mut transparent: bool = false;
    let mut seen_status: bool = false;
    let mut seen_error: bool = false;
    let mut seen_transparent: bool = false;
    let mut malformed: bool = false;
    let mut i: usize = 0;
    while i < attrs.len()
        invariant
            0 <= i <= attrs@.len(),
            malformed == !attrs_well_formed(attrs@.take(i as int)),
            seen_status == (lookup(attrs@.take(i as int), "status_code"@) is Some),
            seen_error == (lookup(attrs@.take(i as int), "error_code"@) is Some),
            seen_transparent == (lookup(attrs@.take(i as int), "transparent"@) is Some),
            status == status_of(attrs@.take(i as int)),
            error == error_code_of(attrs@.take(i as int)),
            transparent == transparent_of(attrs@.take(i as int)),
        decreases attrs@.len() - i,
    {
        let ghost prefix = attrs@.take(i as int);
        let ghost longer = attrs@.take(i + 1 as int);
        let a = &attrs[i];
        proof {
            reveal_strlit("status_code");
            reveal_strlit("error_code");
            reveal_strlit("transparent");
            assert("status_code"@.len() == 11 && "error_code"@.len() == 10 && "transparent"@.len()
                == 11);
            assert("status_code"@[0] == 's' && "transparent"@[0] == 't');
            assert("status_code"@ != "error_code"@ && "status_code"@ != "transparent"@
                && "error_code"@ != "transparent"@);
            assert(longer =~= prefix.push(attrs@[i as int]));
            lemma_lookup_push(prefix, attrs@[i as int], "status_code"@);
            lemma_lookup_push(prefix, attrs@[i as int], "error_code"@);
            lemma_lookup_push(prefix, attrs@[i as int], "transparent"@);
            lemma_wf_push(prefix, attrs@[i as int]);
        }
        let is_status = key_is(&a.key, "status_code");
        let is_error = key_is(&a.key, "error_code");
        let is_transparent = key_is(&a.key, "transparent");
        if is_status {
            if seen_status {
                malformed = true;
            } else {
                seen_status = true;
                match &a.value {
                    AttrValue::Int(n) => { status = Some(*n); },
                    _ => { malformed = true; },
                }
            }
        } else if is_error {
            if seen_error {
                malformed = true;
            } else {
                seen_error = true;
                match &a.value {
                    AttrValue::Str(s) => { error = Some(s.clone()); },
                    _ => { malformed = true; },
                }
            }
        } else if is_transparent {
            if seen_transparent {
                malformed = true;
            } else {
                seen_transparent = true;
                match &a.value {
                    AttrValue::Flag => { transparent = true; },
                    _ => { malformed = true; },
                }
            }
        }
        proof {
            assert(malformed == !attrs_well_formed(longer));
            assert(status == status_of(longer));
            assert(error == error_code_of(longer));
            assert(transparent == transparent_of(longer));
        }
        i = i + 1;
    }
    proof {
        assert(attrs@.take(attrs@.len() as int) =~= attrs@);
    }
    if malformed {
        ResponseConfig { status_code: None, error_code: None, transparent: false }
    } else {
        ResponseConfig { status_code: status, error_code: error, transparent }
    }
}

} // verus!
