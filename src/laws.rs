//! Properties that hold across operations: bounds, steps, round trips
//! through a device that reports back what was written, and toggling.
use vstd::prelude::*;
use crate::bool_instruction::{state_token, BoolState};
use crate::decimal::{decimal, lemma_decimal_chars, lemma_parse_decimal};
use crate::instruction::{echo_reply, raw_reading};
use crate::int_instruction::IntState;
use crate::string_instruction::StringState;
use crate::text::{is_space, remove_all, trim_end, trim_start, trimmed};

verus! {

/// Whether `p` occurs anywhere in `s`.
pub open spec fn occurs_in(s: Seq<char>, p: Seq<char>) -> bool {
    exists|i: int| 0 <= i && i + p.len() <= s.len() && #[trigger] s.subrange(i, i + p.len()) == p
}

/// Text in which a non-empty pattern does not occur is left as it is.
proof fn lemma_no_match(value: Seq<char>, p: Seq<char>)
    requires
        p.len() > 0,
        !occurs_in(value, p),
    ensures
        remove_all(value, p) == value,
    decreases value.len(),
{
    if value.len() >= p.len() {
        assert(value.subrange(0, p.len() as int) != p) by {
            if value.subrange(0, p.len() as int) == p {
                assert(value.subrange(0int, 0int + p.len()) == p);
                assert(occurs_in(value, p));
            }
        }
        let rest = value.drop_first();
        assert(!occurs_in(rest, p)) by {
            if occurs_in(rest, p) {
                let i = choose|i: int| 0 <= i && i + p.len() <= rest.len() && #[trigger] rest.subrange(i, i + p.len()) == p;
                assert(value.subrange(i + 1, i + 1 + p.len()) =~= rest.subrange(i, i + p.len()));
            }
        }
        lemma_no_match(rest, p);
        assert(seq![value[0]].add(rest) =~= value);
    }
}

/// A pattern that ends in a space does not occur in text without spaces.
proof fn lemma_token_no_match(value: Seq<char>, p: Seq<char>)
    requires
        p.len() > 0,
        p.last() == ' ',
        !value.contains(' '),
    ensures
        !occurs_in(value, p),
{
    if occurs_in(value, p) {
        let i = choose|i: int| 0 <= i && i + p.len() <= value.len() && #[trigger] value.subrange(i, i + p.len()) == p;
        assert(value.subrange(i, i + p.len())[p.len() - 1] == value[i + p.len() - 1]);
    }
}

/// A device's echo of `value` reads back as `value`, provided the value
/// does not itself hold the echoed token (`<ATTR> `).
pub proof fn lemma_echo_stripped(name: Seq<char>, value: Seq<char>)
    requires
        !occurs_in(value, name.push(' ')),
    ensures
        raw_reading(name, echo_reply(name, value)) == value,
{
    let p = name.push(' ');
    let s = echo_reply(name, value);
    assert(s =~= p + value);
    assert(s.subrange(0, p.len() as int) =~= p);
    assert(s.subrange(p.len() as int, s.len() as int) =~= value);
    lemma_no_match(value, p);
}

/// Text that neither starts nor ends with whitespace is its own trim.
proof fn lemma_trim_unchanged(s: Seq<char>)
    requires
        s.len() > 0,
        !is_space(s[0]),
        !is_space(s.last()),
    ensures
        trimmed(s) == s,
{
    assert(trim_start(s) == s);
    assert(trim_end(s) == s);
}

proof fn lemma_decimal_token(n: int)
    ensures
        !decimal(n).contains(' '),
        trimmed(decimal(n)) == decimal(n),
{
    lemma_decimal_chars(n);
    let d = decimal(n);
    assert(!is_space(d[0]));
    lemma_trim_unchanged(d);
}

/// A `set` is accepted exactly for values within `[min, max]`, and an
/// accepted value leaves the cache at that value.
pub proof fn lemma_int_set_bounds(s: IntState, v: i32)
    ensures
        s.set_plan(v as int) is Some <==> s.min <= v && v <= s.max,
        s.set_plan(v as int) is Some ==> s.set_plan(v as int) == Some(v as int)
            && s.acknowledge(v as int).cached == v,
{
}

/// `inc` fails exactly when one step up passes `max`, `dec` exactly when
/// one step down passes `min`; otherwise the acknowledged write moves the
/// cache by exactly one step and leaves the bounds alone.
pub proof fn lemma_int_steps(s: IntState)
    requires
        s.wf(),
    ensures
        s.inc_plan() is None <==> s.cached + s.step > s.max,
        s.dec_plan() is None <==> s.cached - s.step < s.min,
        s.inc_plan() is Some ==> s.acknowledge(s.inc_plan().unwrap()) == (IntState {
            cached: s.cached + s.step,
            ..s
        }),
        s.dec_plan() is Some ==> s.acknowledge(s.dec_plan().unwrap()) == (IntState {
            cached: s.cached - s.step,
            ..s
        }),
{
}

/// After a write of an in-bounds `v` is acknowledged, a device that echoes
/// it reads back as `v`, and the cache holds `v`.
pub proof fn lemma_int_round_trip(s: IntState, v: i32)
    requires
        s.min <= v <= s.max,
    ensures
        s.set_plan(v as int) == Some(v as int),
        s.acknowledge(v as int).cached == v,
        s.acknowledge(v as int).reading(echo_reply(s.name, decimal(v as int))) == Some(v as int),
{
    lemma_decimal_token(v as int);
    lemma_token_no_match(decimal(v as int), s.name.push(' '));
    lemma_echo_stripped(s.name, decimal(v as int));
    lemma_parse_decimal(v);
}

/// After a write of `v` is acknowledged, a device that echoes its token
/// reads back as `v`, and the cache holds `v`.
pub proof fn lemma_bool_round_trip(s: BoolState, v: bool)
    ensures
        s.acknowledge(v).cached == v,
        s.acknowledge(v).reading(echo_reply(s.name, state_token(v))) == Some(v),
{
    let t = state_token(v);
    assert(!t.contains(' ')) by {
        if t.contains(' ') {
            let i = choose|i: int| 0 <= i < t.len() && t[i] == ' ';
        }
    }
    lemma_token_no_match(t, s.name.push(' '));
    lemma_echo_stripped(s.name, t);
    lemma_trim_unchanged(t);
}

/// After a write of an allowed token `v` is acknowledged, a device that
/// echoes it reads back as `v`, and the cache holds `v`; this needs only
/// that `v` does not itself hold the echoed token `<ATTR> `.
pub proof fn lemma_string_round_trip(s: StringState, v: Seq<char>)
    requires
        s.allows(v),
        !occurs_in(v, s.name.push(' ')),
    ensures
        s.acknowledge(v).cached == v,
        s.acknowledge(v).reading(echo_reply(s.name, v)) == v,
{
    lemma_echo_stripped(s.name, v);
}

/// Two acknowledged toggles restore the original state.
pub proof fn lemma_toggle_twice(s: BoolState)
    ensures
        ({
            let once = s.acknowledge(s.toggle_plan());
            once.acknowledge(once.toggle_plan())
        }) == s,
{
}

} // verus!
