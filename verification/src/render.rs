//! Rendering: from the structured routine to the source text the host
//! splices into the compiled artifact, and the message texts carried by
//! diagnostics. Every piece of the output is pinned down by a spec
//! function over sequences of characters.

use vstd::arithmetic::div_mod::lemma_div_decreases;
use vstd::prelude::*;

use crate::ast::Generics;
use crate::ir::{DispatchArm, GeneratedRoutine, Pattern, Strategy};

verus! {

/// Message of the diagnostic for a non-sum-type input.
pub open spec fn unsupported_shape_message() -> Seq<char> {
    "ResponseError should be derived only on enums"@
}

/// Message of the diagnostic for a delegating variant of the wrong shape.
pub open spec fn shape_mismatch_message(name: Seq<char>) -> Seq<char> {
    "transparent requires exactly one unnamed field on variant "@ + name
}

/// Message of the diagnostic for a status code the transport rejects.
pub open spec fn invalid_status_message(name: Seq<char>) -> Seq<char> {
    "invalid status_code on variant "@ + name
}

/// How one character appears inside a generated string literal: a
/// quote or a backslash gets a backslash before it.
pub open spec fn escape_char(c: char) -> Seq<char> {
    if c == '"' || c == '\\' {
        seq!['\\', c]
    } else {
        seq![c]
    }
}

/// A character sequence with every quote and backslash escaped.
pub open spec fn escaped(s: Seq<char>) -> Seq<char>
    decreases s.len(),
{
    if s.len() == 0 {
        Seq::empty()
    } else {
        escaped(s.drop_last()) + escape_char(s.last())
    }
}

/// A generated string literal: the escaped contents between quotes.
pub open spec fn quoted(s: Seq<char>) -> Seq<char> {
    seq!['"'] + escaped(s) + seq!['"']
}

/// The character of one decimal digit.
pub open spec fn digit_char(d: int) -> char {
    if d == 0 {
        '0'
    } else if d == 1 {
        '1'
    } else if d == 2 {
        '2'
    } else if d == 3 {
        '3'
    } else if d == 4 {
        '4'
    } else if d == 5 {
        '5'
    } else if d == 6 {
        '6'
    } else if d == 7 {
        '7'
    } else if d == 8 {
        '8'
    } else {
        '9'
    }
}

/// The decimal rendering of a nonnegative integer, most significant
/// digit first, with no leading zeros.
pub open spec fn dec_digits(n: int) -> Seq<char>
    recommends
        n >= 0,
    decreases n,
    when n >= 0 via dec_digits_decreases
{
    if n < 10 {
        seq![digit_char(n)]
    } else {
        dec_digits(n / 10) + seq![digit_char(n % 10)]
    }
}

#[via_fn]
proof fn dec_digits_decreases(n: int) {
    if n >= 10 {
        lemma_div_decreases(n, 10);
    }
}

/// The text of one arm's pattern.
pub open spec fn pattern_text(p: Pattern) -> Seq<char> {
    match p {
        Pattern::Bare => Seq::empty(),
        Pattern::BindInner => "(error)"@,
        Pattern::WildcardUnnamed => "(..)"@,
        Pattern::WildcardNamed => "{..}"@,
    }
}

/// The text of one arm's response-construction expression.
pub open spec fn response_text(s: Strategy) -> Seq<char> {
    match s {
        Strategy::Transparent => "error.into_response()"@,
        Strategy::Default => "\"-1\".into_response()"@,
        Strategy::ErrorOnly(e) => quoted(e@) + ".into_response()"@,
        Strategy::StatusOnly(n) => "axum::http::StatusCode::from_u16("@ + dec_digits(n as int)
            + "u16).expect(\"invalid status_code\").into_response()"@,
        Strategy::StatusAndError(n, e) => "(axum::http::StatusCode::from_u16("@ + dec_digits(
            n as int,
        ) + "u16).expect(\"invalid status_code\"), "@ + quoted(e@) + ").into_response()"@,
    }
}

/// The text of one whole dispatch arm.
pub open spec fn arm_text(a: DispatchArm) -> Seq<char> {
    "            Self::"@ + a.variant_name@ + pattern_text(a.pattern) + " => "@ + response_text(
        a.response,
    ) + ",\n"@
}

/// The texts of all arms, concatenated in order.
pub open spec fn arms_text(arms: Seq<DispatchArm>) -> Seq<char>
    decreases arms.len(),
{
    if arms.len() == 0 {
        Seq::empty()
    } else {
        arms_text(arms.drop_last()) + arm_text(arms.last())
    }
}

/// A piece followed by one space, or nothing when the piece is empty.
pub open spec fn space_after(s: Seq<char>) -> Seq<char> {
    if s.len() == 0 {
        s
    } else {
        s + " "@
    }
}

/// A piece preceded by one space, or nothing when the piece is empty.
pub open spec fn space_before(s: Seq<char>) -> Seq<char> {
    if s.len() == 0 {
        s
    } else {
        " "@ + s
    }
}

/// The full text of the generated routine: the conversion capability
/// attached to the type under its verbatim identity, enclosing one
/// exhaustive dispatch with all arms in declaration order.
pub open spec fn routine_text(name: Seq<char>, g: Generics, arms: Seq<DispatchArm>) -> Seq<char> {
    "impl axum::response::IntoResponse for "@ + space_after(g.impl_generics@) + name
        + g.type_generics@ + space_before(g.where_clause@)
        + " {\n    fn into_response(self) -> axum::response::Response {\n        match self {\n"@
        + arms_text(arms) + "        }\n    }\n}\n"@
}

/// Builds the message for a non-sum-type input.
pub fn render_unsupported_shape_message() -> (m: String)
    ensures
        m@ == unsupported_shape_message(),
{
    String::from_str("ResponseError should be derived only on enums")
}

/// Builds the message for a delegating variant of the wrong shape.
pub fn render_shape_mismatch_message(name: &String) -> (m: String)
    ensures
        m@ == shape_mismatch_message(name@),
{
    let mut m: String = String::from_str(
        "transparent requires exactly one unnamed field on variant ",
    );
    m.append(name.as_str());
    m
}

/// Builds the message for a status code the transport rejects.
pub fn render_invalid_status_message(name: &String) -> (m: String)
    ensures
        m@ == invalid_status_message(name@),
{
    let mut m: String = String::from_str("invalid status_code on variant ");
    m.append(name.as_str());
    m
}

/// One decimal digit as text.
fn digit_str(d: u64) -> (s: &'static str)
    requires
        d < 10,
    ensures
        s@ == seq![digit_char(d as int)],
{
    let s: &'static str = if d == 0 {
        "0"
    } else if d == 1 {
        "1"
    } else if d == 2 {
        "2"
    } else if d == 3 {
        "3"
    } else if d == 4 {
        "4"
    } else if d == 5 {
        "5"
    } else if d == 6 {
        "6"
    } else if d == 7 {
        "7"
    } else if d == 8 {
        "8"
    } else {
        "9"
    };
    proof {
        reveal_strlit("0");
        reveal_strlit("1");
        reveal_strlit("2");
        reveal_strlit("3");
        reveal_strlit("4");
        reveal_strlit("5");
        reveal_strlit("6");
        reveal_strlit("7");
        reveal_strlit("8");
        reveal_strlit("9");
        assert(s@ =~= seq![digit_char(d as int)]);
    }
    s
}

/// Appends the decimal rendering of `n`.
fn append_dec(out: &mut String, n: u64)
    ensures
        final(out)@ == old(out)@ + dec_digits(n as int),
    decreases n,
{
    if n >= 10 {
        append_dec(out, n / 10);
    }
    let d: u64 = n % 10;
    out.append(digit_str(d));
    proof {
        assert(out@ =~= old(out)@ + dec_digits(n as int));
    }
}

/// Appends the contents of `s` with quotes and backslashes escaped.
fn append_escaped(out: &mut String, s: &String)
    ensures
        final(out)@ == old(out)@ + escaped(s@),
{
    let text: &str = s.as_str();
    let len: usize = text.unicode_len();
    let mut i: usize = 0;
    while i < len
        invariant
            len == s@.len(),
            text@ == s@,
            0 <= i <= len,
            out@ == old(out)@ + escaped(s@.take(i as int)),
        decreases len - i,
    {
        let c: char = text.get_char(i);
        if c == '"' {
            out.append("\\\"");
            proof {
                reveal_strlit("\\\"");
            }
        } else if c == '\\' {
            out.append("\\\\");
            proof {
                reveal_strlit("\\\\");
            }
        } else {
            let piece: &str = text.substring_char(i, i + 1);
            out.append(piece);
        }
        proof {
            assert(s@.take(i + 1 as int).drop_last() =~= s@.take(i as int));
            assert(out@ =~= old(out)@ + escaped(s@.take(i + 1 as int)));
        }
        i = i + 1;
    }
    proof {
        assert(s@.take(len as int) =~= s@);
    }
}

/// Appends `s` as a generated string literal, quotes around it.
fn append_quoted(out: &mut String, s: &String)
    ensures
        final(out)@ == old(out)@ + quoted(s@),
{
    out.append("\"");
    append_escaped(out, s);
    out.append("\"");
    proof {
        reveal_strlit("\"");
        assert(out@ =~= old(out)@ + quoted(s@));
    }
}

/// Appends one arm's response-construction expression.
fn append_response(out: &mut String, s: &Strategy)
    ensures
        final(out)@ == old(out)@ + response_text(*s),
{
    match s {
        Strategy::Transparent => {
            out.append("error.into_response()");
        },
        Strategy::Default => {
            out.append("\"-1\".into_response()");
        },
        Strategy::ErrorOnly(e) => {
            append_quoted(out, e);
            out.append(".into_response()");
        },
        Strategy::StatusOnly(n) => {
            out.append("axum::http::StatusCode::from_u16(");
            append_dec(out, *n);
            out.append("u16).expect(\"invalid status_code\").into_response()");
        },
        Strategy::StatusAndError(n, e) => {
            out.append("(axum::http::StatusCode::from_u16(");
            append_dec(out, *n);
            out.append("u16).expect(\"invalid status_code\"), ");
            append_quoted(out, e);
            out.append(").into_response()");
        },
    }
    proof {
        assert(out@ =~= old(out)@ + response_text(*s));
    }
}

/// Appends one whole dispatch arm.
fn append_arm(out: &mut String, a: &DispatchArm)
    ensures
        final(out)@ == old(out)@ + arm_text(*a),
{
    out.append("            Self::");
    out.append(a.variant_name.as_str());
    match a.pattern {
        Pattern::Bare => {},
        Pattern::BindInner => {
            out.append("(error)");
        },
        Pattern::WildcardUnnamed => {
            out.append("(..)");
        },
        Pattern::WildcardNamed => {
            out.append("{..}");
        },
    }
    out.append(" => ");
    append_response(out, &a.response);
    out.append(",\n");
    proof {
        assert(out@ =~= old(out)@ + arm_text(*a));
    }
}

/// Renders the whole generated routine to source text.
pub fn render_routine(rt: &GeneratedRoutine) -> (out: String)
    ensures
        out@ == routine_text(rt.enum_name@, rt.generics, rt.arms@),
{
    let mut out: String = String::new();
    out.append("impl axum::response::IntoResponse for ");
    if !rt.generics.impl_generics.as_str().is_empty() {
        out.append(rt.generics.impl_generics.as_str());
        out.append(" ");
    }
    out.append(rt.enum_name.as_str());
    out.append(rt.generics.type_generics.as_str());
    if !rt.generics.where_clause.as_str().is_empty() {
        out.append(" ");
        out.append(rt.generics.where_clause.as_str());
    }
    out.append(" {\n    fn into_response(self) -> axum::response::Response {\n        match self {\n");
    let ghost header: Seq<char> = out@;
    proof {
        assert(out@ =~= header + arms_text(rt.arms@.take(0)));
    }
    let mut i: usize = 0;
    while i < rt.arms.len()
        invariant
            0 <= i <= rt.arms@.len(),
            out@ == header + arms_text(rt.arms@.take(i as int)),
        decreases rt.arms@.len() - i,
    {
        append_arm(&mut out, &rt.arms[i]);
        proof {
            assert(rt.arms@.take(i + 1 as int).drop_last() =~= rt.arms@.take(i as int));
            assert(out@ =~= header + arms_text(rt.arms@.take(i + 1 as int)));
        }
        i = i + 1;
    }
    out.append("        }\n    }\n}\n");
    proof {
        assert(rt.arms@.take(rt.arms@.len() as int) =~= rt.arms@);
        assert(out@ =~= routine_text(rt.enum_name@, rt.generics, rt.arms@));
    }
    out
}

} // verus!
