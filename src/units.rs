//! The duration value and the units it is measured in.

use crate::structured::{Doc, StructuredValue};
use rustc_serialize::json::Json;
use vstd::prelude::*;

verus! {

/// The units by which a duration is measured.
#[derive(Debug, Clone, Copy, PartialEq, Eq, Structural)]
pub enum DurationUnit {
    Week,
    Day,
    Hour,
    Minute,
}

/// The one-character code of a unit in the service's duration syntax.
pub open spec fn unit_code(u: DurationUnit) -> Seq<char> {
    match u {
        DurationUnit::Week => seq!['w'],
        DurationUnit::Day => seq!['d'],
        DurationUnit::Hour => seq!['h'],
        DurationUnit::Minute => seq!['m'],
    }
}

/// The decimal digit that stands for `d`, where `d < 10`.
pub open spec fn digit_char(d: nat) -> char {
    ((d + '0' as nat) as u32) as char
}

/// The decimal digits of `n`, most significant first, with no leading zeros
/// (zero is the single digit `0`).
pub open spec fn nat_text(n: nat) -> Seq<char>
    decreases n,
{
    if n < 10 {
        seq![digit_char(n)]
    } else {
        nat_text(n / 10).push(digit_char(n % 10))
    }
}

/// The decimal text of an integer: a `-` before the digits of a negative one.
pub open spec fn int_text(n: int) -> Seq<char> {
    if n < 0 {
        seq!['-'] + nat_text((-n) as nat)
    } else {
        nat_text(n as nat)
    }
}

/// The text of a duration: the amount in decimal followed by the unit's code.
pub open spec fn duration_text(amt: int, unit: DurationUnit) -> Seq<char> {
    int_text(amt) + unit_code(unit)
}

impl DurationUnit {
    /// The unit's code: `w`, `d`, `h` or `m`.
    pub fn to_string(&self) -> (r: String)
        ensures
            r@ == unit_code(*self),
    {
        let r = match *self {
            DurationUnit::Week => "w",
            DurationUnit::Day => "d",
            DurationUnit::Hour => "h",
            DurationUnit::Minute => "m",
        };
        proof {
            reveal_strlit("w");
            reveal_strlit("d");
            reveal_strlit("h");
            reveal_strlit("m");
        }
        r.to_owned()
    }
}

/// The one-digit text of `d`.
fn digit_str(d: u64) -> (r: &'static str)
    requires
        d < 10,
    ensures
        r@ == seq![digit_char(d as nat)],
{
    proof {
        reveal_strlit("0");
        reveal_strlit("1");
        reveal_strlit("2");
        reveal_strlit("3");
        reveal_strlit("4");
        reveal_strlit("5");
        reveal_strlit("6");
        reveal_strlit("7");
        reveal_strlit("8");
        reveal_strlit("9");
    }
    match d {
        0 => "0",
        1 => "1",
        2 => "2",
        3 => "3",
        4 => "4",
        5 => "5",
        6 => "6",
        7 => "7",
        8 => "8",
        _ => "9",
    }
}

/// Appends the decimal digits of `n` to `s`.
fn append_digits(s: &mut String, n: u64)
    ensures
        final(s)@ == old(s)@ + nat_text(n as nat),
    decreases n,
{
    if n >= 10 {
        append_digits(s, n / 10);
    }
    s.append(digit_str(n % 10));
    proof {
        if n >= 10 {
            assert(nat_text(n as nat) == nat_text((n / 10) as nat).push(
                digit_char((n % 10) as nat),
            ));
        }
        assert(s@ =~= old(s)@ + nat_text(n as nat));
    }
}

/// The decimal text of `n`.
pub fn int_to_text(n: i64) -> (r: String)
    ensures
        r@ == int_text(n as int),
{
    let mut s = String::new();
    if n < 0 {
        s.append("-");
        proof {
            reveal_strlit("-");
        }
        let m: u64 = (-(n as i128)) as u64;
        append_digits(&mut s, m);
    } else {
        append_digits(&mut s, n as u64);
    }
    s
}

/// A time span: an amount of some unit, written in the service's standard
/// duration format (`100d`).
#[derive(Debug, Clone, Copy, PartialEq, Eq, Structural)]
pub struct Duration {
    amt: i64,
    unit: DurationUnit,
}

impl Duration {
    /// The amount, which may be negative or zero.
    pub closed spec fn amount(&self) -> int {
        self.amt as int
    }

    /// The unit.
    pub closed spec fn spec_unit(&self) -> DurationUnit {
        self.unit
    }

    /// The duration's text, `{amount}{unit code}`.
    pub open spec fn text(&self) -> Seq<char> {
        duration_text(self.amount(), self.spec_unit())
    }

    /// A duration of `amt` units; no amount is refused.
    pub fn new(amt: i64, unit: DurationUnit) -> (r: Duration)
        ensures
            r.amount() == amt as int,
            r.spec_unit() == unit,
    {
        Duration { amt, unit }
    }

    /// The duration in the service's format: the amount in decimal, then the
    /// unit's code, with nothing between them.
    pub fn to_string(&self) -> (r: String)
        ensures
            r@ == self.text(),
    {
        let mut s = int_to_text(self.amt);
        let code = self.unit.to_string();
        s.append(code.as_str());
        s
    }

    /// The duration as a structured string leaf that holds its text.
    pub fn to_structured_value(&self) -> (r: StructuredValue)
        ensures
            r@ == Doc::Text(self.text()),
    {
        StructuredValue::Text(self.to_string())
    }

    /// The duration as a JSON string leaf that holds its text.
    pub fn to_json(&self) -> (r: Json)
        ensures
            r == json_string_of(self.text()),
    {
        json_string(self.to_string())
    }
}

/// Every unit has a code of one character, and no two units share a code.
pub proof fn lemma_unit_code_distinct(u: DurationUnit, v: DurationUnit)
    ensures
        unit_code(u).len() == 1,
        unit_code(u) == unit_code(v) <==> u == v,
{
    if unit_code(u) == unit_code(v) {
        assert(unit_code(u)[0] == unit_code(v)[0]);
    }
}

proof fn lemma_digit_char(d: nat)
    requires
        d < 10,
    ensures
        digit_char(d) as u32 == d + 48,
{
}

proof fn lemma_nat_text_shape(n: nat)
    ensures
        nat_text(n).len() >= 1,
        n < 10 <==> nat_text(n).len() == 1,
        nat_text(n)[0] as u32 >= 48,
    decreases n,
{
    if n < 10 {
        lemma_digit_char(n);
    } else {
        lemma_nat_text_shape(n / 10);
    }
}

proof fn lemma_nat_text_injective(n: nat, m: nat)
    requires
        nat_text(n) == nat_text(m),
    ensures
        n == m,
    decreases n,
{
    lemma_nat_text_shape(n);
    lemma_nat_text_shape(m);
    lemma_digit_char(n % 10);
    lemma_digit_char(m % 10);
    if n < 10 {
        assert(nat_text(n)[0] == nat_text(m)[0]);
    } else {
        let tn = nat_text(n);
        let tm = nat_text(m);
        assert(tn.last() == tm.last());
        assert(tn.drop_last() =~= nat_text(n / 10));
        assert(tm.drop_last() =~= nat_text(m / 10));
        lemma_nat_text_injective(n / 10, m / 10);
    }
}

proof fn lemma_int_text_injective(a: int, b: int)
    requires
        int_text(a) == int_text(b),
    ensures
        a == b,
{
    lemma_nat_text_shape((-a) as nat);
    lemma_nat_text_shape((-b) as nat);
    lemma_nat_text_shape(a as nat);
    lemma_nat_text_shape(b as nat);
    assert(int_text(a)[0] == int_text(b)[0]);
    if a < 0 && b < 0 {
        assert(int_text(a).drop_first() =~= nat_text((-a) as nat));
        assert(int_text(b).drop_first() =~= nat_text((-b) as nat));
        lemma_nat_text_injective((-a) as nat, (-b) as nat);
    } else if a >= 0 && b >= 0 {
        lemma_nat_text_injective(a as nat, b as nat);
    }
}

/// A duration's text reads back: two durations have the same text exactly
/// when they have the same amount and the same unit.
pub proof fn lemma_duration_text_reads_back(d1: Duration, d2: Duration)
    ensures
        d1.text() == d2.text() <==> (d1.amount() == d2.amount() && d1.spec_unit()
            == d2.spec_unit()),
{
    if d1.text() == d2.text() {
        let t = d1.text();
        assert(t.drop_last() =~= int_text(d1.amount()));
        assert(t.drop_last() =~= int_text(d2.amount()));
        assert(unit_code(d1.spec_unit()) =~= seq![t.last()]);
        assert(unit_code(d2.spec_unit()) =~= seq![t.last()]);
        lemma_int_text_injective(d1.amount(), d2.amount());
        lemma_unit_code_distinct(d1.spec_unit(), d2.spec_unit());
    }
}

/// Rendering a duration changes nothing: equal durations, and so one
/// duration rendered twice, give the same text and the same JSON value.
pub proof fn lemma_duration_rendering_repeats(d1: Duration, d2: Duration)
    requires
        d1 == d2,
    ensures
        d1.text() == d2.text(),
        json_string_of(d1.text()) == json_string_of(d2.text()),
{
}

/// The JSON value that `Json::String` builds from the characters given.
pub uninterp spec fn json_string_of(s: Seq<char>) -> Json;

#[verifier::external_type_specification]
#[verifier::external_body]
pub struct ExJson(Json);

/// Relies on rustc_serialize's `Json::String`: the JSON string leaf that holds
/// the characters of `s`, one value for one text.
#[verifier::external_body]
fn json_string(s: String) -> (r: Json)
    ensures
        r == json_string_of(s@),
{
    Json::String(s)
}

} // verus!
