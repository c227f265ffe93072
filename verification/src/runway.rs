//! How much runway is left, read as a fundraising status.
use vstd::prelude::*;

use crate::outside::{now_instant, spec_year_month_after, year_month_after};

verus! {

/// The most months a runway projection counts.
pub const MAX_RUNWAY_MONTHS: u32 = 120;

/// Days per month in the zero-cash date estimate.
pub const DAYS_PER_MONTH: i64 = 30;

/// What a runway means for fundraising.
#[derive(PartialEq, Eq, Structural, Clone, Copy, Debug)]
pub enum RunwayStatus {
    Critical,
    RaiseNow,
    Healthy,
    Comfortable,
}

/// The status of a runway of `months` months: up to 6 critical, up to 12
/// raise now, up to 18 healthy, longer comfortable.
pub open spec fn runway_status_spec(months: int) -> RunwayStatus {
    if months <= 6 {
        RunwayStatus::Critical
    } else if months <= 12 {
        RunwayStatus::RaiseNow
    } else if months <= 18 {
        RunwayStatus::Healthy
    } else {
        RunwayStatus::Comfortable
    }
}

impl RunwayStatus {
    /// From most to least pressing.
    pub open spec fn rank(self) -> int {
        match self {
            RunwayStatus::Critical => 0,
            RunwayStatus::RaiseNow => 1,
            RunwayStatus::Healthy => 2,
            RunwayStatus::Comfortable => 3,
        }
    }

    /// The status of a runway of `months` months.
    pub fn of_months(months: u32) -> (r: RunwayStatus)
        ensures
            r == runway_status_spec(months as int),
    {
        if months <= 6 {
            RunwayStatus::Critical
        } else if months <= 12 {
            RunwayStatus::RaiseNow
        } else if months <= 18 {
            RunwayStatus::Healthy
        } else {
            RunwayStatus::Comfortable
        }
    }

    /// The status's name.
    pub fn name(&self) -> (r: &'static str)
        ensures
            r@ == match *self {
                RunwayStatus::Critical => "critical"@,
                RunwayStatus::RaiseNow => "raise_now"@,
                RunwayStatus::Healthy => "healthy"@,
                RunwayStatus::Comfortable => "comfortable"@,
            },
    {
        match self {
            RunwayStatus::Critical => "critical",
            RunwayStatus::RaiseNow => "raise_now",
            RunwayStatus::Healthy => "healthy",
            RunwayStatus::Comfortable => "comfortable",
        }
    }

    /// What to do about it.
    pub fn recommendation(&self) -> (r: &'static str)
        ensures
            r@ == match *self {
                RunwayStatus::Critical => "Raise immediately or cut burn drastically"@,
                RunwayStatus::RaiseNow => "Start fundraising now (takes 3-6 months)"@,
                RunwayStatus::Healthy => "Good position to start fundraising"@,
                RunwayStatus::Comfortable => "Comfortable runway, raise opportunistically"@,
            },
    {
        match self {
            RunwayStatus::Critical => "Raise immediately or cut burn drastically",
            RunwayStatus::RaiseNow => "Start fundraising now (takes 3-6 months)",
            RunwayStatus::Healthy => "Good position to start fundraising",
            RunwayStatus::Comfortable => "Comfortable runway, raise opportunistically",
        }
    }
}

/// Days until cash runs out, counting `DAYS_PER_MONTH` days a month.
pub fn zero_cash_offset_days(months: u32) -> (d: i64)
    ensures
        d == months * DAYS_PER_MONTH,
{
    months as i64 * DAYS_PER_MONTH
}

/// The text of an optional string.
pub open spec fn opt_text(o: Option<String>) -> Option<Seq<char>> {
    match o {
        Some(s) => Some(s@),
        None => None,
    }
}

/// The year and month ("%Y-%m") in which cash runs out for a runway of
/// `months` months counted from the instant `now_secs` seconds and
/// `now_nanos` nanoseconds after the Unix epoch; none where the date falls
/// outside what chrono can represent.
pub fn zero_cash_month_at(now_secs: i64, now_nanos: u32, months: u32) -> (r: Option<String>)
    ensures
        opt_text(r) == spec_year_month_after(now_secs, now_nanos, (months * DAYS_PER_MONTH) as i64),
{
    let days = zero_cash_offset_days(months);
    year_month_after(now_secs, now_nanos, days)
}

/// The year and month in which cash runs out for a runway of `months`
/// months counted from now, by the system clock.
pub fn zero_cash_month(months: u32) -> (r: Option<String>)
    ensures
        exists|now_secs: i64, now_nanos: u32|
            now_secs >= 0 && now_nanos < 1_000_000_000 && opt_text(r) == #[trigger] spec_year_month_after(
                now_secs,
                now_nanos,
                (months * DAYS_PER_MONTH) as i64,
            ),
{
    let (now_secs, now_nanos) = now_instant();
    zero_cash_month_at(now_secs, now_nanos, months)
}

} // verus!

verus! {

/// More runway never makes the status more pressing.
pub proof fn lemma_status_monotone(months: int, more: int)
    requires
        months <= more,
    ensures
        runway_status_spec(months).rank() <= runway_status_spec(more).rank(),
{
}

} // verus!

verus! {

/// The runway statuses by months of cash left: 6 or fewer critical, 7 to 12
/// raise now, 13 to 18 healthy, more comfortable.
pub proof fn lemma_status_table(months: int)
    ensures
        months <= 6 ==> runway_status_spec(months) == RunwayStatus::Critical,
        7 <= months <= 12 ==> runway_status_spec(months) == RunwayStatus::RaiseNow,
        13 <= months <= 18 ==> runway_status_spec(months) == RunwayStatus::Healthy,
        months > 18 ==> runway_status_spec(months) == RunwayStatus::Comfortable,
{
}

} // verus!
