//! Splitting a number of remaining seconds into fixed-length calendar units.
use vstd::prelude::*;

verus! {

pub const SECONDS_PER_MINUTE: u64 = 60;

pub const SECONDS_PER_HOUR: u64 = 3600;

pub const SECONDS_PER_DAY: u64 = 86400;

/// A week is seven days.
pub const SECONDS_PER_WEEK: u64 = 604800;

/// A month is approximated as thirty days.
pub const SECONDS_PER_MONTH: u64 = 2592000;

/// A year is approximated as 365 days.
pub const SECONDS_PER_YEAR: u64 = 31536000;

/// Remaining time split into units, largest first.
#[derive(Debug, Clone, Copy, PartialEq, Eq, Structural)]
pub struct TimeRemaining {
    pub years: u64,
    pub months: u64,
    pub weeks: u64,
    pub days: u64,
    pub hours: u64,
    pub minutes: u64,
    pub seconds: u64,
}

/// Successive division, largest unit first, each unit taking what the larger
/// ones left over.
pub open spec fn decompose_spec(r: nat) -> TimeRemaining {
    let after_years = r % (SECONDS_PER_YEAR as nat);
    let after_months = after_years % (SECONDS_PER_MONTH as nat);
    let after_weeks = after_months % (SECONDS_PER_WEEK as nat);
    let after_days = after_weeks % (SECONDS_PER_DAY as nat);
    let after_hours = after_days % (SECONDS_PER_HOUR as nat);
    TimeRemaining {
        years: (r / (SECONDS_PER_YEAR as nat)) as u64,
        months: (after_years / (SECONDS_PER_MONTH as nat)) as u64,
        weeks: (after_months / (SECONDS_PER_WEEK as nat)) as u64,
        days: (after_weeks / (SECONDS_PER_DAY as nat)) as u64,
        hours: (after_days / (SECONDS_PER_HOUR as nat)) as u64,
        minutes: (after_hours / (SECONDS_PER_MINUTE as nat)) as u64,
        seconds: (after_hours % (SECONDS_PER_MINUTE as nat)) as u64,
    }
}

/// The number of seconds that a breakdown stands for.
pub open spec fn total_of(t: TimeRemaining) -> int {
    t.years * SECONDS_PER_YEAR + t.months * SECONDS_PER_MONTH + t.weeks * SECONDS_PER_WEEK
        + t.days * SECONDS_PER_DAY + t.hours * SECONDS_PER_HOUR + t.minutes * SECONDS_PER_MINUTE
        + t.seconds
}

/// Splits `remaining_seconds` into years, months, weeks, days, hours, minutes
/// and seconds.
pub fn decompose(remaining_seconds: u64) -> (t: TimeRemaining)
    ensures
        t == decompose_spec(remaining_seconds as nat),
{
    let years = remaining_seconds / SECONDS_PER_YEAR;
    let after_years = remaining_seconds % SECONDS_PER_YEAR;
    let months = after_years / SECONDS_PER_MONTH;
    let after_months = after_years % SECONDS_PER_MONTH;
    let weeks = after_months / SECONDS_PER_WEEK;
    let after_weeks = after_months % SECONDS_PER_WEEK;
    let days = after_weeks / SECONDS_PER_DAY;
    let after_days = after_weeks % SECONDS_PER_DAY;
    let hours = after_days / SECONDS_PER_HOUR;
    let after_hours = after_days % SECONDS_PER_HOUR;
    let minutes = after_hours / SECONDS_PER_MINUTE;
    let seconds = after_hours % SECONDS_PER_MINUTE;
    TimeRemaining { years, months, weeks, days, hours, minutes, seconds }
}

/// The breakdown of `r` adds back up to `r`. Every unit below a week stays
/// under the next one; weeks stay at most 4 and months at most 12, since a
/// month and a year are not whole multiples of the smaller units.
pub proof fn lemma_decompose_bounds(r: u64)
    ensures
        total_of(decompose_spec(r as nat)) == r,
        decompose_spec(r as nat).seconds < 60,
        decompose_spec(r as nat).minutes < 60,
        decompose_spec(r as nat).hours < 24,
        decompose_spec(r as nat).days < 7,
        decompose_spec(r as nat).weeks <= 4,
        decompose_spec(r as nat).months <= 12,
{
    let r = r as nat;
    let y = SECONDS_PER_YEAR as nat;
    let mo = SECONDS_PER_MONTH as nat;
    let w = SECONDS_PER_WEEK as nat;
    let d = SECONDS_PER_DAY as nat;
    let h = SECONDS_PER_HOUR as nat;
    let mi = SECONDS_PER_MINUTE as nat;
    let a1 = r % y;
    let a2 = a1 % mo;
    let a3 = a2 % w;
    let a4 = a3 % d;
    let a5 = a4 % h;
    assert(r == (r / y) * y + a1 && a1 < y && r / y <= r) by (nonlinear_arith)
        requires y == 31536000, a1 == r % y;
    assert(a1 == (a1 / mo) * mo + a2 && a1 / mo <= 12) by (nonlinear_arith)
        requires mo == 2592000, a2 == a1 % mo, a1 < 31536000;
    assert(a2 == (a2 / w) * w + a3 && a2 / w <= 4) by (nonlinear_arith)
        requires w == 604800, a3 == a2 % w, a2 == a1 % mo, mo == 2592000;
    assert(a3 == (a3 / d) * d + a4 && a3 / d < 7) by (nonlinear_arith)
        requires d == 86400, a4 == a3 % d, a3 == a2 % w, w == 604800;
    assert(a4 == (a4 / h) * h + a5 && a4 / h < 24) by (nonlinear_arith)
        requires h == 3600, a5 == a4 % h, a4 == a3 % d, d == 86400;
    assert(a5 == (a5 / mi) * mi + a5 % mi && a5 / mi < 60 && a5 % mi < 60) by (nonlinear_arith)
        requires mi == 60, a5 == a4 % h, h == 3600;
}

/// The character of a decimal digit.
pub open spec fn digit_char(d: nat) -> char {
    if d == 0 { '0' }
    else if d == 1 { '1' }
    else if d == 2 { '2' }
    else if d == 3 { '3' }
    else if d == 4 { '4' }
    else if d == 5 { '5' }
    else if d == 6 { '6' }
    else if d == 7 { '7' }
    else if d == 8 { '8' }
    else { '9' }
}

/// `n` written in decimal, without leading zeros.
pub open spec fn decimal_text(n: nat) -> Seq<char>
    decreases n,
{
    if n < 10 {
        seq![digit_char(n)]
    } else {
        decimal_text(n / 10).push(digit_char(n % 10))
    }
}

/// Relies on `u64::to_string` (through `Display`): the decimal digits of `n`,
/// no sign, no leading zeros.
#[verifier::external_body]
fn decimal(n: u64) -> (r: String)
    ensures
        r@ == decimal_text(n as nat),
{
    n.to_string()
}

/// One unit of the label: its count, its letter and a separating space, or
/// nothing when no larger unit was shown and this one is zero.
pub open spec fn unit_text(count: u64, letter: char, shown: bool) -> Seq<char> {
    if shown {
        decimal_text(count as nat) + seq![letter, ' ']
    } else {
        Seq::empty()
    }
}

/// The label of a breakdown: units start at the first non-zero one, every
/// smaller unit follows even when zero, and seconds always close it.
pub open spec fn label_spec(t: TimeRemaining) -> Seq<char> {
    let y = t.years > 0;
    let mo = y || t.months > 0;
    let w = mo || t.weeks > 0;
    let d = w || t.days > 0;
    let h = d || t.hours > 0;
    let mi = h || t.minutes > 0;
    unit_text(t.years, 'y', y) + unit_text(t.months, 'm', mo) + unit_text(t.weeks, 'w', w)
        + unit_text(t.days, 'd', d) + unit_text(t.hours, 'h', h) + unit_text(t.minutes, 'm', mi)
        + decimal_text(t.seconds as nat) + seq!['s']
}

/// Appends `count` and `unit` (its letter and a space) to `text` when `shown`.
fn push_unit(text: &mut String, count: u64, unit: &str, shown: bool)
    requires
        unit@.len() == 2,
        unit@[1] == ' ',
    ensures
        final(text)@ == old(text)@ + unit_text(count, unit@[0], shown),
{
    if shown {
        let digits = decimal(count);
        text.append(digits.as_str());
        text.append(unit);
        assert(unit@ =~= seq![unit@[0], ' ']);
        assert(final(text)@ =~= old(text)@ + unit_text(count, unit@[0], shown));
    } else {
        assert(final(text)@ =~= old(text)@ + unit_text(count, unit@[0], shown));
    }
}

impl TimeRemaining {
    /// Renders the breakdown as text, such as `2d 0h 5m 3s` or `7s`.
    pub fn format(&self) -> (r: String)
        ensures
            r@ == label_spec(*self),
    {
        let y = self.years > 0;
        let mo = y || self.months > 0;
        let w = mo || self.weeks > 0;
        let d = w || self.days > 0;
        let h = d || self.hours > 0;
        let mi = h || self.minutes > 0;
        proof {
            reveal_strlit("y ");
            reveal_strlit("m ");
            reveal_strlit("w ");
            reveal_strlit("d ");
            reveal_strlit("h ");
            reveal_strlit("s");
        }
        let mut text = String::new();
        push_unit(&mut text, self.years, "y ", y);
        push_unit(&mut text, self.months, "m ", mo);
        push_unit(&mut text, self.weeks, "w ", w);
        push_unit(&mut text, self.days, "d ", d);
        push_unit(&mut text, self.hours, "h ", h);
        push_unit(&mut text, self.minutes, "m ", mi);
        let digits = decimal(self.seconds);
        text.append(digits.as_str());
        text.append("s");
        assert(text@ =~= label_spec(*self));
        text
    }
}

} // verus!
