use crate::span::duration_nanos;
use std::time::Duration;
use vstd::prelude::*;

verus! {

/// Represents the quantity of a period.
/// For the 2SEC period, this value would be 2
#[derive(Copy, Clone, Debug, PartialEq, Eq, Structural)]
pub enum PeriodInner {
    Second(u8),
    Minute(u8),
    Hour(u8),
    Day(u8),
}

/// A supported period for which historical data can be obtained
#[derive(Copy, Clone, Debug, PartialEq, Eq, Structural)]
pub struct Period(pub PeriodInner);

/// Wraps a unit and multiplier into a period.
pub fn p(inner: PeriodInner) -> (r: Period)
    ensures
        r.0 == inner,
{
    Period(inner)
}

/// The multiplier of the period's unit.
pub open spec fn multiplier(p: Period) -> nat {
    match p.0 {
        PeriodInner::Second(n) => n as nat,
        PeriodInner::Minute(n) => n as nat,
        PeriodInner::Hour(n) => n as nat,
        PeriodInner::Day(n) => n as nat,
    }
}

/// The character of the decimal digit `d`.
pub open spec fn digit_char(d: nat) -> char {
    if d == 0 { '0' }
    else if d == 1 { '1' }
    else if d == 2 { '2' }
    else if d == 3 { '3' }
    else if d == 4 { '4' }
    else if d == 5 { '5' }
    else if d == 6 { '6' }
    else if d == 7 { '7' }
    else if d == 8 { '8' }
    else { '9' }
}

/// The decimal digits of `n`, without leading zeros.
pub open spec fn decimal(n: nat) -> Seq<char>
    decreases n,
{
    if n < 10 {
        seq![digit_char(n)]
    } else {
        decimal(n / 10).push(digit_char(n % 10))
    }
}

/// The suffix that names the period's unit in its identifier.
pub open spec fn unit_token(p: Period) -> Seq<char> {
    match p.0 {
        PeriodInner::Second(_) => seq!['S', 'E', 'C'],
        PeriodInner::Minute(_) => seq!['M', 'I', 'N'],
        PeriodInner::Hour(_) => seq!['H', 'R', 'S'],
        PeriodInner::Day(_) => seq!['D', 'A', 'Y'],
    }
}

/// The identifier of a period that the API expects: its multiplier in decimal,
/// then its unit's suffix (`5SEC`, `10MIN`, `1HRS`, `7DAY`).
pub open spec fn render(p: Period) -> Seq<char> {
    decimal(multiplier(p)) + unit_token(p)
}

/// The text of the decimal digit `d`.
fn digit_str(d: u8) -> (r: &'static str)
    requires
        d < 10,
    ensures
        r@ == seq![digit_char(d as nat)],
{
    match d {
        0 => { proof { reveal_strlit("0"); } "0" },
        1 => { proof { reveal_strlit("1"); } "1" },
        2 => { proof { reveal_strlit("2"); } "2" },
        3 => { proof { reveal_strlit("3"); } "3" },
        4 => { proof { reveal_strlit("4"); } "4" },
        5 => { proof { reveal_strlit("5"); } "5" },
        6 => { proof { reveal_strlit("6"); } "6" },
        7 => { proof { reveal_strlit("7"); } "7" },
        8 => { proof { reveal_strlit("8"); } "8" },
        _ => { proof { reveal_strlit("9"); } "9" },
    }
}

/// The span of the period, in seconds.
pub open spec fn seconds_of(p: Period) -> nat {
    match p.0 {
        PeriodInner::Second(n) => n as nat,
        PeriodInner::Minute(n) => n as nat * 60,
        PeriodInner::Hour(n) => n as nat * 3600,
        PeriodInner::Day(n) => n as nat * 86400,
    }
}

/// The span of the period, in nanoseconds.
pub open spec fn nanos_of_period(p: Period) -> int {
    (seconds_of(p) * 1_000_000_000) as int
}

/// Number of periods that the API supports.
pub const CATALOG_LEN: usize = 33;

/// The supported period at position `i` of the catalog, in ascending order.
pub open spec fn catalog_at(i: int) -> Period {
    Period(
        if i == 0 { PeriodInner::Second(1) }
        else if i == 1 { PeriodInner::Second(2) }
        else if i == 2 { PeriodInner::Second(3) }
        else if i == 3 { PeriodInner::Second(4) }
        else if i == 4 { PeriodInner::Second(5) }
        else if i == 5 { PeriodInner::Second(6) }
        else if i == 6 { PeriodInner::Second(10) }
        else if i == 7 { PeriodInner::Second(15) }
        else if i == 8 { PeriodInner::Second(20) }
        else if i == 9 { PeriodInner::Second(30) }
        else if i == 10 { PeriodInner::Minute(1) }
        else if i == 11 { PeriodInner::Minute(2) }
        else if i == 12 { PeriodInner::Minute(3) }
        else if i == 13 { PeriodInner::Minute(4) }
        else if i == 14 { PeriodInner::Minute(5) }
        else if i == 15 { PeriodInner::Minute(6) }
        else if i == 16 { PeriodInner::Minute(10) }
        else if i == 17 { PeriodInner::Minute(15) }
        else if i == 18 { PeriodInner::Minute(20) }
        else if i == 19 { PeriodInner::Minute(30) }
        else if i == 20 { PeriodInner::Hour(1) }
        else if i == 21 { PeriodInner::Hour(2) }
        else if i == 22 { PeriodInner::Hour(3) }
        else if i == 23 { PeriodInner::Hour(4) }
        else if i == 24 { PeriodInner::Hour(6) }
        else if i == 25 { PeriodInner::Hour(8) }
        else if i == 26 { PeriodInner::Hour(12) }
        else if i == 27 { PeriodInner::Day(1) }
        else if i == 28 { PeriodInner::Day(2) }
        else if i == 29 { PeriodInner::Day(3) }
        else if i == 30 { PeriodInner::Day(5) }
        else if i == 31 { PeriodInner::Day(7) }
        else { PeriodInner::Day(10) }
    )
}

/// The catalog of supported periods, shortest first.
pub open spec fn catalog() -> Seq<Period> {
    Seq::new(CATALOG_LEN as nat, |i: int| catalog_at(i))
}

/// The catalog's entries are strictly ascending by span.
pub proof fn lemma_catalog_ascending()
    ensures
        forall|i: int| 1 <= i < catalog().len() ==>
            seconds_of(#[trigger] catalog()[i]) > seconds_of(catalog()[i - 1]),
{
}

impl Period {
    /// The span of this period, in seconds.
    pub fn seconds(&self) -> (r: u64)
        ensures
            r == seconds_of(*self),
    {
        match self.0 {
            PeriodInner::Second(n) => n as u64,
            PeriodInner::Minute(n) => n as u64 * 60,
            PeriodInner::Hour(n) => n as u64 * 3600,
            PeriodInner::Day(n) => n as u64 * 86400,
        }
    }

    /// The multiplier of this period's unit.
    pub fn multiplier(&self) -> (r: u8)
        ensures
            r == multiplier(*self),
    {
        match self.0 {
            PeriodInner::Second(n) => n,
            PeriodInner::Minute(n) => n,
            PeriodInner::Hour(n) => n,
            PeriodInner::Day(n) => n,
        }
    }

    /// The suffix that names this period's unit.
    fn unit_token(&self) -> (r: &'static str)
        ensures
            r@ == unit_token(*self),
    {
        match self.0 {
            PeriodInner::Second(_) => { proof { reveal_strlit("SEC"); } "SEC" },
            PeriodInner::Minute(_) => { proof { reveal_strlit("MIN"); } "MIN" },
            PeriodInner::Hour(_) => { proof { reveal_strlit("HRS"); } "HRS" },
            PeriodInner::Day(_) => { proof { reveal_strlit("DAY"); } "DAY" },
        }
    }

    /// The identifier of this period that the API expects, such as `5SEC` or `12HRS`.
    pub fn to_string(&self) -> (r: String)
        ensures
            r@ == render(*self),
    {
        let n = self.multiplier();
        let mut s = String::new();
        if n >= 100 {
            s.append(digit_str(n / 100));
        }
        if n >= 10 {
            s.append(digit_str(n / 10 % 10));
        }
        s.append(digit_str(n % 10));
        proof {
            reveal_with_fuel(decimal, 3);
            assert(s@ =~= decimal(n as nat));
        }
        s.append(self.unit_token());
        s
    }

    /// The span of this period, in nanoseconds.
    pub fn nanos(&self) -> (r: u128)
        ensures
            r == nanos_of_period(*self),
    {
        self.seconds() as u128 * 1_000_000_000
    }

    /// Returns the span of this period as a duration
    pub fn duration(&self) -> (r: Duration)
        ensures
            duration_nanos(r) == nanos_of_period(*self),
    {
        Duration::from_secs(self.seconds())
    }
}

/// The supported periods, shortest first.
pub fn supported_periods() -> (r: Vec<Period>)
    ensures
        r@ == catalog(),
{
    let mut r: Vec<Period> = Vec::new();
    let mut i: usize = 0;
    while i < CATALOG_LEN
        invariant
            i <= CATALOG_LEN,
            r@ == catalog().subrange(0, i as int),
        decreases CATALOG_LEN - i,
    {
        r.push(supported_period(i));
        i = i + 1;
    }
    r
}

/// The period at position `i` of the catalog.
pub fn supported_period(i: usize) -> (r: Period)
    requires
        i < CATALOG_LEN,
    ensures
        r == catalog()[i as int],
{
    let inner = match i {
        0 => PeriodInner::Second(1),
        1 => PeriodInner::Second(2),
        2 => PeriodInner::Second(3),
        3 => PeriodInner::Second(4),
        4 => PeriodInner::Second(5),
        5 => PeriodInner::Second(6),
        6 => PeriodInner::Second(10),
        7 => PeriodInner::Second(15),
        8 => PeriodInner::Second(20),
        9 => PeriodInner::Second(30),
        10 => PeriodInner::Minute(1),
        11 => PeriodInner::Minute(2),
        12 => PeriodInner::Minute(3),
        13 => PeriodInner::Minute(4),
        14 => PeriodInner::Minute(5),
        15 => PeriodInner::Minute(6),
        16 => PeriodInner::Minute(10),
        17 => PeriodInner::Minute(15),
        18 => PeriodInner::Minute(20),
        19 => PeriodInner::Minute(30),
        20 => PeriodInner::Hour(1),
        21 => PeriodInner::Hour(2),
        22 => PeriodInner::Hour(3),
        23 => PeriodInner::Hour(4),
        24 => PeriodInner::Hour(6),
        25 => PeriodInner::Hour(8),
        26 => PeriodInner::Hour(12),
        27 => PeriodInner::Day(1),
        28 => PeriodInner::Day(2),
        29 => PeriodInner::Day(3),
        30 => PeriodInner::Day(5),
        31 => PeriodInner::Day(7),
        _ => PeriodInner::Day(10),
    };
    Period(inner)
}

} // verus!
