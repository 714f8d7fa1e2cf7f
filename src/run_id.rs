use vstd::prelude::*;
use vstd::string::*;

use crate::text::{decimal, digit_char, push_zero_padded, zero_padded};

verus! {

/// The start time of a run, to the minute, in the local calendar.
#[derive(Debug, Clone, Copy, PartialEq, Eq)]
pub struct Timestamp {
    pub year: u32,
    pub month: u32,
    pub day: u32,
    pub hour: u32,
    pub minute: u32,
}

impl Timestamp {
    /// A calendar time with a four-digit year.
    pub open spec fn wf(self) -> bool {
        self.year <= 9999 && 1 <= self.month <= 12 && 1 <= self.day <= 31 && self.hour <= 23
            && self.minute <= 59
    }
}

pub open spec fn two(n: u32) -> Seq<char> {
    zero_padded(n as nat, 2)
}

pub open spec fn four(n: u32) -> Seq<char> {
    zero_padded(n as nat, 4)
}

/// The run identifier: `DD-MM-YYYY_HH-MM`, free of colons and slashes.
pub open spec fn spec_run_identifier(t: Timestamp) -> Seq<char> {
    two(t.day) + "-"@ + two(t.month) + "-"@ + four(t.year) + "_"@ + two(t.hour) + "-"@ + two(
        t.minute,
    )
}

/// The time stamp of a database dump file: `YYYY-MM-DD-HH:MM`.
pub open spec fn spec_dump_datetime(t: Timestamp) -> Seq<char> {
    four(t.year) + "-"@ + two(t.month) + "-"@ + two(t.day) + "-"@ + two(t.hour) + ":"@ + two(
        t.minute,
    )
}

/// Formats the run identifier of a run that started at `t`.
pub fn run_identifier(t: Timestamp) -> (r: String)
    requires
        t.wf(),
    ensures
        r@ == spec_run_identifier(t),
{
    let mut r = String::new();
    push_zero_padded(&mut r, t.day as u64, 2);
    r.append("-");
    push_zero_padded(&mut r, t.month as u64, 2);
    r.append("-");
    push_zero_padded(&mut r, t.year as u64, 4);
    r.append("_");
    push_zero_padded(&mut r, t.hour as u64, 2);
    r.append("-");
    push_zero_padded(&mut r, t.minute as u64, 2);
    assert(r@ =~= spec_run_identifier(t));
    r
}

/// Formats the time stamp that names the database dump of a run started at `t`.
pub fn dump_datetime(t: Timestamp) -> (r: String)
    requires
        t.wf(),
    ensures
        r@ == spec_dump_datetime(t),
{
    let mut r = String::new();
    push_zero_padded(&mut r, t.year as u64, 4);
    r.append("-");
    push_zero_padded(&mut r, t.month as u64, 2);
    r.append("-");
    push_zero_padded(&mut r, t.day as u64, 2);
    r.append("-");
    push_zero_padded(&mut r, t.hour as u64, 2);
    r.append(":");
    push_zero_padded(&mut r, t.minute as u64, 2);
    assert(r@ =~= spec_dump_datetime(t));
    r
}

proof fn lemma_digit_char_injective(a: nat, b: nat)
    requires
        a < 10,
        b < 10,
        digit_char(a) == digit_char(b),
    ensures
        a == b,
{
}

proof fn lemma_two_digits(n: nat)
    requires
        n < 100,
    ensures
        zero_padded(n, 2) == seq![digit_char(n / 10), digit_char(n % 10)],
{
    reveal_with_fuel(decimal, 2);
    if n < 10 {
        assert(zero_padded(n, 2) =~= seq![digit_char(n / 10), digit_char(n % 10)]);
    } else {
        assert(decimal(n) =~= seq![digit_char(n / 10), digit_char(n % 10)]);
    }
}

proof fn lemma_four_digits(n: nat)
    requires
        n < 10000,
    ensures
        zero_padded(n, 4) == seq![
            digit_char(n / 1000),
            digit_char((n / 100) % 10),
            digit_char((n / 10) % 10),
            digit_char(n % 10),
        ],
{
    reveal_with_fuel(decimal, 4);
    let s = seq![
        digit_char(n / 1000),
        digit_char((n / 100) % 10),
        digit_char((n / 10) % 10),
        digit_char(n % 10),
    ];
    assert(n / 10 / 10 == n / 100);
    assert(n / 100 / 10 == n / 1000);
    if n < 10 {
        assert(zero_padded(n, 4) =~= s);
    } else if n < 100 {
        assert(decimal(n) == decimal(n / 10) + seq![digit_char(n % 10)]);
        assert(zero_padded(n, 4) =~= s);
    } else if n < 1000 {
        assert(decimal(n / 10) == decimal(n / 100) + seq![digit_char((n / 10) % 10)]);
        assert(zero_padded(n, 4) =~= s);
    } else {
        assert(decimal(n / 100) == decimal(n / 1000) + seq![digit_char((n / 100) % 10)]);
        assert(decimal(n / 10) == decimal(n / 100) + seq![digit_char((n / 10) % 10)]);
        assert(decimal(n) =~= s);
    }
}

proof fn lemma_two_injective(a: u32, b: u32)
    requires
        a < 100,
        b < 100,
        two(a) == two(b),
    ensures
        a == b,
{
    lemma_two_digits(a as nat);
    lemma_two_digits(b as nat);
    assert(two(a)[0] == two(b)[0]);
    assert(two(a)[1] == two(b)[1]);
    lemma_digit_char_injective((a / 10) as nat, (b / 10) as nat);
    lemma_digit_char_injective((a % 10) as nat, (b % 10) as nat);
}

proof fn lemma_four_injective(a: u32, b: u32)
    requires
        a < 10000,
        b < 10000,
        four(a) == four(b),
    ensures
        a == b,
{
    lemma_four_digits(a as nat);
    lemma_four_digits(b as nat);
    assert(four(a)[0] == four(b)[0]);
    assert(four(a)[1] == four(b)[1]);
    assert(four(a)[2] == four(b)[2]);
    assert(four(a)[3] == four(b)[3]);
    lemma_digit_char_injective((a / 1000) as nat, (b / 1000) as nat);
    lemma_digit_char_injective(((a / 100) % 10) as nat, ((b / 100) % 10) as nat);
    lemma_digit_char_injective(((a / 10) % 10) as nat, ((b / 10) % 10) as nat);
    lemma_digit_char_injective((a % 10) as nat, (b % 10) as nat);
}

/// A run identifier has sixteen characters and ends in a digit.
pub proof fn lemma_run_identifier_shape(t: Timestamp)
    requires
        t.wf(),
    ensures
        spec_run_identifier(t).len() == 16,
        spec_run_identifier(t).last() != '/',
{
    lemma_widths(t);
    lemma_two_digits(t.minute as nat);
    let id = spec_run_identifier(t);
    assert(id.last() == two(t.minute)[1]);
}

proof fn lemma_widths(t: Timestamp)
    requires
        t.wf(),
    ensures
        two(t.day).len() == 2,
        two(t.month).len() == 2,
        four(t.year).len() == 4,
        two(t.hour).len() == 2,
        two(t.minute).len() == 2,
        "-"@.len() == 1,
        "_"@.len() == 1,
{
    lemma_two_digits(t.day as nat);
    lemma_two_digits(t.month as nat);
    lemma_four_digits(t.year as nat);
    lemma_two_digits(t.hour as nat);
    lemma_two_digits(t.minute as nat);
    reveal_strlit("-");
    reveal_strlit("_");
}

/// Runs started at different minutes get different identifiers.
pub proof fn lemma_run_identifier_injective(t1: Timestamp, t2: Timestamp)
    requires
        t1.wf(),
        t2.wf(),
        spec_run_identifier(t1) == spec_run_identifier(t2),
    ensures
        t1 == t2,
{
    lemma_widths(t1);
    lemma_widths(t2);
    let a = spec_run_identifier(t1);
    let b = spec_run_identifier(t2);
    assert(a.subrange(0, 2) =~= two(t1.day));
    assert(b.subrange(0, 2) =~= two(t2.day));
    assert(a.subrange(3, 5) =~= two(t1.month));
    assert(b.subrange(3, 5) =~= two(t2.month));
    assert(a.subrange(6, 10) =~= four(t1.year));
    assert(b.subrange(6, 10) =~= four(t2.year));
    assert(a.subrange(11, 13) =~= two(t1.hour));
    assert(b.subrange(11, 13) =~= two(t2.hour));
    assert(a.subrange(14, 16) =~= two(t1.minute));
    assert(b.subrange(14, 16) =~= two(t2.minute));
    lemma_two_injective(t1.day, t2.day);
    lemma_two_injective(t1.month, t2.month);
    lemma_four_injective(t1.year, t2.year);
    lemma_two_injective(t1.hour, t2.hour);
    lemma_two_injective(t1.minute, t2.minute);
}

} // verus!
