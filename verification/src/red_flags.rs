//! The issues that investors raise in due diligence, and the overall read
//! of a company's metrics.
use vstd::prelude::*;

use crate::compare::Placement;

verus! {

/// A burn multiple above this is a red flag.
pub const BURN_MULTIPLE_LIMIT: u32 = 3;

/// Month-on-month growth below this (percent) is a red flag.
pub const GROWTH_FLOOR_PCT: u32 = 15;

/// A single customer above this share of revenue (percent) is a red flag.
pub const CONCENTRATION_LIMIT_PCT: u32 = 30;

/// An LTV/CAC ratio below this is a red flag.
pub const LTV_CAC_FLOOR: u32 = 3;

/// More months than this since the last raise is a red flag.
pub const MONTHS_SINCE_RAISE_LIMIT: u32 = 18;

/// An issue investors will raise.
#[derive(PartialEq, Eq, Structural, Clone, Copy, Debug)]
pub enum RedFlag {
    HighBurnMultiple,
    NoRevenue,
    LowGrowth,
    CustomerConcentration,
    LowLtvCac,
    LongTimeSinceRaise,
}

/// How serious an issue is.
#[derive(PartialEq, Eq, Structural, Clone, Copy, Debug)]
pub enum Severity {
    High,
    Medium,
}

/// What is known of revenue: nothing, none (zero or less), or some, with
/// where the burn multiple (burn over revenue) lies relative to its limit.
#[derive(PartialEq, Eq, Structural, Clone, Copy, Debug)]
pub enum RevenueCheck {
    NotGiven,
    NotPositive,
    Positive { burn_multiple_vs_limit: Placement },
}

/// The read of all flags together.
#[derive(PartialEq, Eq, Structural, Clone, Copy, Debug)]
pub enum Overall {
    Concerning,
    Clean,
    MinorIssues,
}

/// The severity of each flag: burn, growth and concentration are high,
/// the others medium.
pub open spec fn severity_spec(flag: RedFlag) -> Severity {
    match flag {
        RedFlag::HighBurnMultiple => Severity::High,
        RedFlag::NoRevenue => Severity::Medium,
        RedFlag::LowGrowth => Severity::High,
        RedFlag::CustomerConcentration => Severity::High,
        RedFlag::LowLtvCac => Severity::Medium,
        RedFlag::LongTimeSinceRaise => Severity::Medium,
    }
}

/// A flag raised when `cond` holds.
pub open spec fn flag_if(cond: bool, flag: RedFlag) -> Seq<RedFlag> {
    if cond {
        seq![flag]
    } else {
        Seq::empty()
    }
}

/// The flags of a company, in this order: burn multiple above its limit, or
/// no revenue; growth below its floor; concentration above its limit;
/// LTV/CAC below its floor; more than 18 months since the last raise. A
/// measure that is not given raises nothing.
pub open spec fn red_flags_spec(
    revenue: RevenueCheck,
    growth_vs_floor: Option<Placement>,
    concentration_vs_limit: Option<Placement>,
    ltv_cac_vs_floor: Option<Placement>,
    months_since_last_raise: Option<u32>,
) -> Seq<RedFlag> {
    (match revenue {
        RevenueCheck::NotGiven => Seq::empty(),
        RevenueCheck::NotPositive => seq![RedFlag::NoRevenue],
        RevenueCheck::Positive { burn_multiple_vs_limit } => flag_if(
            burn_multiple_vs_limit.above(),
            RedFlag::HighBurnMultiple,
        ),
    }) + flag_if(growth_vs_floor matches Some(p) && p.below(), RedFlag::LowGrowth) + flag_if(
        concentration_vs_limit matches Some(p) && p.above(),
        RedFlag::CustomerConcentration,
    ) + flag_if(ltv_cac_vs_floor matches Some(p) && p.below(), RedFlag::LowLtvCac) + flag_if(
        months_since_last_raise matches Some(m) && m > MONTHS_SINCE_RAISE_LIMIT,
        RedFlag::LongTimeSinceRaise,
    )
}

/// Some flag is of high severity.
pub open spec fn any_high(flags: Seq<RedFlag>) -> bool {
    exists|i: int| 0 <= i < flags.len() && severity_spec(#[trigger] flags[i]) == Severity::High
}

/// Concerning where some flag is of high severity, clean where there is no
/// flag, minor issues otherwise.
pub open spec fn overall_spec(flags: Seq<RedFlag>) -> Overall {
    if any_high(flags) {
        Overall::Concerning
    } else if flags.len() == 0 {
        Overall::Clean
    } else {
        Overall::MinorIssues
    }
}

impl RedFlag {
    /// The flag's severity.
    pub fn severity(&self) -> (r: Severity)
        ensures
            r == severity_spec(*self),
    {
        match self {
            RedFlag::HighBurnMultiple => Severity::High,
            RedFlag::NoRevenue => Severity::Medium,
            RedFlag::LowGrowth => Severity::High,
            RedFlag::CustomerConcentration => Severity::High,
            RedFlag::LowLtvCac => Severity::Medium,
            RedFlag::LongTimeSinceRaise => Severity::Medium,
        }
    }

    /// The flag's title.
    pub fn title(&self) -> (r: &'static str)
        ensures
            r@ == match *self {
                RedFlag::HighBurnMultiple => "High burn multiple"@,
                RedFlag::NoRevenue => "No revenue"@,
                RedFlag::LowGrowth => "Low growth rate"@,
                RedFlag::CustomerConcentration => "Customer concentration"@,
                RedFlag::LowLtvCac => "Low LTV/CAC ratio"@,
                RedFlag::LongTimeSinceRaise => "Long time since last raise"@,
            },
    {
        match self {
            RedFlag::HighBurnMultiple => "High burn multiple",
            RedFlag::NoRevenue => "No revenue",
            RedFlag::LowGrowth => "Low growth rate",
            RedFlag::CustomerConcentration => "Customer concentration",
            RedFlag::LowLtvCac => "Low LTV/CAC ratio",
            RedFlag::LongTimeSinceRaise => "Long time since last raise",
        }
    }

    /// Why investors care.
    pub fn detail(&self) -> (r: &'static str)
        ensures
            r@ == match *self {
                RedFlag::HighBurnMultiple => "Spending too much relative to revenue growth"@,
                RedFlag::NoRevenue => "Pre-revenue companies face higher scrutiny"@,
                RedFlag::LowGrowth => "Investors expect >15% MoM at seed, >10% at Series A"@,
                RedFlag::CustomerConcentration => "Single customer >30% of revenue is a major risk"@,
                RedFlag::LowLtvCac => "Unit economics not yet proven (target >3x)"@,
                RedFlag::LongTimeSinceRaise => "Investors may question why you haven't raised or reached profitability"@,
            },
    {
        match self {
            RedFlag::HighBurnMultiple => "Spending too much relative to revenue growth",
            RedFlag::NoRevenue => "Pre-revenue companies face higher scrutiny",
            RedFlag::LowGrowth => "Investors expect >15% MoM at seed, >10% at Series A",
            RedFlag::CustomerConcentration => "Single customer >30% of revenue is a major risk",
            RedFlag::LowLtvCac => "Unit economics not yet proven (target >3x)",
            RedFlag::LongTimeSinceRaise => "Investors may question why you haven't raised or reached profitability",
        }
    }

    /// The limit that the flag measures against; none for missing revenue.
    pub fn threshold(&self) -> (r: Option<u32>)
        ensures
            r == match *self {
                RedFlag::HighBurnMultiple => Some(BURN_MULTIPLE_LIMIT),
                RedFlag::NoRevenue => None,
                RedFlag::LowGrowth => Some(GROWTH_FLOOR_PCT),
                RedFlag::CustomerConcentration => Some(CONCENTRATION_LIMIT_PCT),
                RedFlag::LowLtvCac => Some(LTV_CAC_FLOOR),
                RedFlag::LongTimeSinceRaise => Some(MONTHS_SINCE_RAISE_LIMIT),
            },
    {
        match self {
            RedFlag::HighBurnMultiple => Some(BURN_MULTIPLE_LIMIT),
            RedFlag::NoRevenue => None,
            RedFlag::LowGrowth => Some(GROWTH_FLOOR_PCT),
            RedFlag::CustomerConcentration => Some(CONCENTRATION_LIMIT_PCT),
            RedFlag::LowLtvCac => Some(LTV_CAC_FLOOR),
            RedFlag::LongTimeSinceRaise => Some(MONTHS_SINCE_RAISE_LIMIT),
        }
    }
}

impl Severity {
    /// The severity's name.
    pub fn name(&self) -> (r: &'static str)
        ensures
            r@ == match *self {
                Severity::High => "high"@,
                Severity::Medium => "medium"@,
            },
    {
        match self {
            Severity::High => "high",
            Severity::Medium => "medium",
        }
    }
}

impl Overall {
    /// The read's name.
    pub fn name(&self) -> (r: &'static str)
        ensures
            r@ == match *self {
                Overall::Concerning => "concerning"@,
                Overall::Clean => "clean"@,
                Overall::MinorIssues => "minor_issues"@,
            },
    {
        match self {
            Overall::Concerning => "concerning",
            Overall::Clean => "clean",
            Overall::MinorIssues => "minor_issues",
        }
    }
}

/// The red flags of a company, in order.
pub fn red_flags(
    revenue: RevenueCheck,
    growth_vs_floor: Option<Placement>,
    concentration_vs_limit: Option<Placement>,
    ltv_cac_vs_floor: Option<Placement>,
    months_since_last_raise: Option<u32>,
) -> (r: Vec<RedFlag>)
    ensures
        r@ == red_flags_spec(
            revenue,
            growth_vs_floor,
            concentration_vs_limit,
            ltv_cac_vs_floor,
            months_since_last_raise,
        ),
{
    let mut flags: Vec<RedFlag> = Vec::new();
    match revenue {
        RevenueCheck::NotGiven => {},
        RevenueCheck::NotPositive => flags.push(RedFlag::NoRevenue),
        RevenueCheck::Positive { burn_multiple_vs_limit } => {
            if burn_multiple_vs_limit.is_above() {
                flags.push(RedFlag::HighBurnMultiple);
            }
        },
    }
    let ghost s0 = flags@;
    match growth_vs_floor {
        Some(p) => {
            if p.is_below() {
                flags.push(RedFlag::LowGrowth);
            }
        },
        None => {},
    }
    let ghost s1 = flags@;
    match concentration_vs_limit {
        Some(p) => {
            if p.is_above() {
                flags.push(RedFlag::CustomerConcentration);
            }
        },
        None => {},
    }
    let ghost s2 = flags@;
    match ltv_cac_vs_floor {
        Some(p) => {
            if p.is_below() {
                flags.push(RedFlag::LowLtvCac);
            }
        },
        None => {},
    }
    let ghost s3 = flags@;
    match months_since_last_raise {
        Some(m) => {
            if m > MONTHS_SINCE_RAISE_LIMIT {
                flags.push(RedFlag::LongTimeSinceRaise);
            }
        },
        None => {},
    }
    assert(flags@ =~= red_flags_spec(
        revenue,
        growth_vs_floor,
        concentration_vs_limit,
        ltv_cac_vs_floor,
        months_since_last_raise,
    ));
    flags
}

/// The overall read of a list of flags.
pub fn overall(flags: &Vec<RedFlag>) -> (r: Overall)
    ensures
        r == overall_spec(flags@),
{
    let n = flags.len();
    for i in 0..n
        invariant
            n == flags@.len(),
            forall|j: int| 0 <= j < i ==> severity_spec(#[trigger] flags@[j]) != Severity::High,
    {
        if flags[i].severity() == Severity::High {
            return Overall::Concerning;
        }
    }
    if n == 0 {
        Overall::Clean
    } else {
        Overall::MinorIssues
    }
}

} // verus!

verus! {

/// The overall read is clean exactly when no flag is raised, and concerning
/// whenever the burn multiple, growth or customer concentration is flagged.
pub proof fn lemma_overall_follows_flags(
    revenue: RevenueCheck,
    growth_vs_floor: Option<Placement>,
    concentration_vs_limit: Option<Placement>,
    ltv_cac_vs_floor: Option<Placement>,
    months_since_last_raise: Option<u32>,
)
    ensures
        ({
            let flags = red_flags_spec(
                revenue,
                growth_vs_floor,
                concentration_vs_limit,
                ltv_cac_vs_floor,
                months_since_last_raise,
            );
            &&& (overall_spec(flags) == Overall::Clean <==> flags.len() == 0)
            &&& (flags.contains(RedFlag::HighBurnMultiple) || flags.contains(RedFlag::LowGrowth)
                || flags.contains(RedFlag::CustomerConcentration)) ==> overall_spec(flags)
                == Overall::Concerning
            &&& flags.len() <= 5
        }),
{
    let flags = red_flags_spec(
        revenue,
        growth_vs_floor,
        concentration_vs_limit,
        ltv_cac_vs_floor,
        months_since_last_raise,
    );
    if flags.contains(RedFlag::HighBurnMultiple) || flags.contains(RedFlag::LowGrowth)
        || flags.contains(RedFlag::CustomerConcentration) {
        let i = choose|i: int|
            0 <= i < flags.len() && (flags[i] == RedFlag::HighBurnMultiple || flags[i]
                == RedFlag::LowGrowth || flags[i] == RedFlag::CustomerConcentration);
        assert(severity_spec(flags[i]) == Severity::High);
    }
    if flags.len() == 0 {
        assert(!any_high(flags));
    }
}

} // verus!

verus! {

/// A flag is in a concatenation exactly when it is in one of the parts.
proof fn lemma_concat_contains(a: Seq<RedFlag>, b: Seq<RedFlag>, f: RedFlag)
    ensures
        (a + b).contains(f) <==> (a.contains(f) || b.contains(f)),
{
    if a.contains(f) {
        let i = choose|i: int| 0 <= i < a.len() && a[i] == f;
        assert((a + b)[i] == f);
    }
    if b.contains(f) {
        let i = choose|i: int| 0 <= i < b.len() && b[i] == f;
        assert((a + b)[a.len() + i] == f);
    }
    if (a + b).contains(f) {
        let i = choose|i: int| 0 <= i < (a + b).len() && (a + b)[i] == f;
        if i < a.len() {
            assert(a[i] == f);
        } else {
            assert(b[i - a.len()] == f);
        }
    }
}

/// A flag raised on a condition holds exactly that flag when the condition does.
proof fn lemma_flag_if_contains(cond: bool, flag: RedFlag, f: RedFlag)
    ensures
        flag_if(cond, flag).contains(f) <==> (cond && flag == f),
{
    if cond {
        assert(flag_if(cond, flag)[0] == flag);
    }
}

/// Each flag is raised exactly when its own measure calls for it, whatever
/// the other measures are: a burn multiple above 3 with revenue; no revenue
/// where revenue is given as none; growth given and below 15%; customer
/// concentration given and above 30%; LTV/CAC given and below 3; more than 18
/// months since the last raise. No flag is raised twice.
#[verifier::rlimit(40)]
pub proof fn lemma_each_flag_on_its_measure(
    revenue: RevenueCheck,
    growth_vs_floor: Option<Placement>,
    concentration_vs_limit: Option<Placement>,
    ltv_cac_vs_floor: Option<Placement>,
    months_since_last_raise: Option<u32>,
)
    ensures
        ({
            let flags = red_flags_spec(
                revenue,
                growth_vs_floor,
                concentration_vs_limit,
                ltv_cac_vs_floor,
                months_since_last_raise,
            );
            &&& flags.contains(RedFlag::HighBurnMultiple) <==> (revenue matches RevenueCheck::Positive {
                burn_multiple_vs_limit,
            } && burn_multiple_vs_limit == Placement::Above)
            &&& flags.contains(RedFlag::NoRevenue) <==> revenue == RevenueCheck::NotPositive
            &&& flags.contains(RedFlag::LowGrowth) <==> growth_vs_floor == Some(Placement::Below)
            &&& flags.contains(RedFlag::CustomerConcentration) <==> concentration_vs_limit == Some(
                Placement::Above,
            )
            &&& flags.contains(RedFlag::LowLtvCac) <==> ltv_cac_vs_floor == Some(Placement::Below)
            &&& flags.contains(RedFlag::LongTimeSinceRaise) <==> (months_since_last_raise matches Some(
                m,
            ) && m > 18)
            &&& forall|i: int, j: int| 0 <= i < j < flags.len() ==> flags[i] != flags[j]
        }),
{
    let s0: Seq<RedFlag> = match revenue {
        RevenueCheck::NotGiven => Seq::empty(),
        RevenueCheck::NotPositive => seq![RedFlag::NoRevenue],
        RevenueCheck::Positive { burn_multiple_vs_limit } => flag_if(
            burn_multiple_vs_limit.above(),
            RedFlag::HighBurnMultiple,
        ),
    };
    let s1 = flag_if(growth_vs_floor matches Some(p) && p.below(), RedFlag::LowGrowth);
    let s2 = flag_if(concentration_vs_limit matches Some(p) && p.above(), RedFlag::CustomerConcentration);
    let s3 = flag_if(ltv_cac_vs_floor matches Some(p) && p.below(), RedFlag::LowLtvCac);
    let s4 = flag_if(
        months_since_last_raise matches Some(m) && m > MONTHS_SINCE_RAISE_LIMIT,
        RedFlag::LongTimeSinceRaise,
    );
    let flags = red_flags_spec(
        revenue,
        growth_vs_floor,
        concentration_vs_limit,
        ltv_cac_vs_floor,
        months_since_last_raise,
    );
    assert(flags == s0 + s1 + s2 + s3 + s4);
    assert forall|f: RedFlag| #[trigger] flags.contains(f) <==> (s0.contains(f) || s1.contains(f)
        || s2.contains(f) || s3.contains(f) || s4.contains(f)) by {
        lemma_concat_contains(s0 + s1 + s2 + s3, s4, f);
        lemma_concat_contains(s0 + s1 + s2, s3, f);
        lemma_concat_contains(s0 + s1, s2, f);
        lemma_concat_contains(s0, s1, f);
    }
    assert forall|f: RedFlag| #[trigger] s0.contains(f) <==> (match revenue {
        RevenueCheck::NotGiven => false,
        RevenueCheck::NotPositive => f == RedFlag::NoRevenue,
        RevenueCheck::Positive { burn_multiple_vs_limit } => burn_multiple_vs_limit.above() && f
            == RedFlag::HighBurnMultiple,
    }) by {
        match revenue {
            RevenueCheck::NotGiven => {},
            RevenueCheck::NotPositive => {
                assert(s0[0] == RedFlag::NoRevenue);
            },
            RevenueCheck::Positive { burn_multiple_vs_limit } => {
                lemma_flag_if_contains(burn_multiple_vs_limit.above(), RedFlag::HighBurnMultiple, f);
            },
        }
    }
    assert forall|f: RedFlag|
        (#[trigger] s1.contains(f) <==> ((growth_vs_floor matches Some(p) && p.below())
            && f == RedFlag::LowGrowth)) && (s2.contains(f) <==> ((concentration_vs_limit matches Some(
            p,
        ) && p.above()) && f == RedFlag::CustomerConcentration)) && (s3.contains(f) <==> ((
        ltv_cac_vs_floor matches Some(p) && p.below()) && f == RedFlag::LowLtvCac)) && (s4.contains(f)
            <==> ((months_since_last_raise matches Some(m) && m > MONTHS_SINCE_RAISE_LIMIT) && f
            == RedFlag::LongTimeSinceRaise)) by {
        lemma_flag_if_contains(growth_vs_floor matches Some(p) && p.below(), RedFlag::LowGrowth, f);
        lemma_flag_if_contains(
            concentration_vs_limit matches Some(p) && p.above(),
            RedFlag::CustomerConcentration,
            f,
        );
        lemma_flag_if_contains(ltv_cac_vs_floor matches Some(p) && p.below(), RedFlag::LowLtvCac, f);
        lemma_flag_if_contains(
            months_since_last_raise matches Some(m) && m > MONTHS_SINCE_RAISE_LIMIT,
            RedFlag::LongTimeSinceRaise,
            f,
        );
    }
    assert(flags.contains(RedFlag::HighBurnMultiple) == s0.contains(RedFlag::HighBurnMultiple));
    assert(flags.contains(RedFlag::NoRevenue) == s0.contains(RedFlag::NoRevenue));
    assert(flags.contains(RedFlag::LowGrowth) == s1.contains(RedFlag::LowGrowth));
    assert(flags.contains(RedFlag::CustomerConcentration) == s2.contains(RedFlag::CustomerConcentration));
    assert(flags.contains(RedFlag::LowLtvCac) == s3.contains(RedFlag::LowLtvCac));
    assert(flags.contains(RedFlag::LongTimeSinceRaise) == s4.contains(RedFlag::LongTimeSinceRaise));
    assert forall|i: int, j: int| 0 <= i < j < flags.len() implies flags[i] != flags[j] by {
        let k0 = s0.len();
        let k1 = k0 + s1.len();
        let k2 = k1 + s2.len();
        let k3 = k2 + s3.len();
        assert(s0.len() <= 1 && s1.len() <= 1 && s2.len() <= 1 && s3.len() <= 1 && s4.len() <= 1);
        assert(i < k0 ==> flags[i] == s0[i]);
        assert(k0 <= i < k1 ==> flags[i] == RedFlag::LowGrowth);
        assert(k1 <= i < k2 ==> flags[i] == RedFlag::CustomerConcentration);
        assert(k2 <= i < k3 ==> flags[i] == RedFlag::LowLtvCac);
        assert(k3 <= i ==> flags[i] == RedFlag::LongTimeSinceRaise);
        assert(k0 <= j < k1 ==> flags[j] == RedFlag::LowGrowth);
        assert(k1 <= j < k2 ==> flags[j] == RedFlag::CustomerConcentration);
        assert(k2 <= j < k3 ==> flags[j] == RedFlag::LowLtvCac);
        assert(k3 <= j ==> flags[j] == RedFlag::LongTimeSinceRaise);
    }
}

/// The severity of each flag: burn multiple, growth and concentration are
/// high; missing revenue, LTV/CAC and time since the last raise are medium.
pub proof fn lemma_severity_table(f: RedFlag)
    ensures
        severity_spec(f) == Severity::High <==> (f == RedFlag::HighBurnMultiple || f
            == RedFlag::LowGrowth || f == RedFlag::CustomerConcentration),
        severity_spec(f) == Severity::Medium <==> (f == RedFlag::NoRevenue || f == RedFlag::LowLtvCac
            || f == RedFlag::LongTimeSinceRaise),
{
}

} // verus!

verus! {

/// The overall read of any list of flags: concerning exactly when one of them
/// is of high severity, clean exactly when there is none, minor issues when
/// there are flags and all are of medium severity.
pub proof fn lemma_overall_table(flags: Seq<RedFlag>)
    ensures
        overall_spec(flags) == Overall::Concerning <==> exists|i: int|
            0 <= i < flags.len() && (#[trigger] flags[i] == RedFlag::HighBurnMultiple || flags[i]
                == RedFlag::LowGrowth || flags[i] == RedFlag::CustomerConcentration),
        overall_spec(flags) == Overall::Clean <==> flags.len() == 0,
        overall_spec(flags) == Overall::MinorIssues <==> (flags.len() > 0 && forall|i: int|
            0 <= i < flags.len() ==> (#[trigger] flags[i] == RedFlag::NoRevenue || flags[i]
                == RedFlag::LowLtvCac || flags[i] == RedFlag::LongTimeSinceRaise)),
{
    if any_high(flags) {
        let i = choose|i: int| 0 <= i < flags.len() && severity_spec(#[trigger] flags[i]) == Severity::High;
        assert(flags[i] == RedFlag::HighBurnMultiple || flags[i] == RedFlag::LowGrowth || flags[i]
            == RedFlag::CustomerConcentration);
    }
    assert forall|i: int| 0 <= i < flags.len() && (#[trigger] flags[i] == RedFlag::HighBurnMultiple || flags[i]
        == RedFlag::LowGrowth || flags[i] == RedFlag::CustomerConcentration) implies any_high(flags) by {
        assert(severity_spec(flags[i]) == Severity::High);
    }
    assert forall|i: int| !any_high(flags) && 0 <= i < flags.len() implies (#[trigger] flags[i]
        == RedFlag::NoRevenue || flags[i] == RedFlag::LowLtvCac || flags[i]
        == RedFlag::LongTimeSinceRaise) by {
        assert(severity_spec(flags[i]) != Severity::High);
    }
    if flags.len() > 0 && any_high(flags) {
        let i = choose|i: int| 0 <= i < flags.len() && severity_spec(#[trigger] flags[i]) == Severity::High;
        assert(!(flags[i] == RedFlag::NoRevenue || flags[i] == RedFlag::LowLtvCac || flags[i]
            == RedFlag::LongTimeSinceRaise));
    }
}

} // verus!
