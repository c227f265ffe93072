//! Revenue-multiple valuation: the multiple by stage, the adjustments for
//! growth and sector. Multiples and adjustments are in tenths.
use vstd::prelude::*;

use crate::compare::Placement;
use crate::text::{text_eq, text_or};

verus! {

/// Growth rate assumed where none is given, in percent.
pub const DEFAULT_GROWTH_RATE_PCT: u32 = 100;

/// Growth (percent) above which the adjustment is highest.
pub const GROWTH_TIER_HIGH_PCT: u32 = 200;

/// Growth (percent) above which the adjustment is second highest.
pub const GROWTH_TIER_MID_PCT: u32 = 100;

/// Growth (percent) at or below which the adjustment is lowest.
pub const GROWTH_TIER_LOW_PCT: u32 = 50;

/// The low end of the valuation range, in tenths of the estimate.
pub const RANGE_LOW_TENTHS: u32 = 7;

/// The high end of the valuation range, in tenths of the estimate.
pub const RANGE_HIGH_TENTHS: u32 = 14;

/// The base revenue multiple of a stage, in tenths: 20x pre-seed, 15x seed
/// with revenue and 10x without, 12x series A, 10x series B, 8x series C,
/// 10x for any other stage.
pub open spec fn base_multiple_spec(stage: Seq<char>, has_revenue: bool) -> nat {
    if stage == "pre-seed"@ || stage == "pre_seed"@ {
        200
    } else if stage == "seed"@ {
        if has_revenue { 150 } else { 100 }
    } else if stage == "series_a"@ || stage == "series-a"@ || stage == "a"@ {
        120
    } else if stage == "series_b"@ || stage == "series-b"@ || stage == "b"@ {
        100
    } else if stage == "series_c"@ || stage == "series-c"@ || stage == "c"@ {
        80
    } else {
        100
    }
}

/// The sector adjustment, in tenths: AI 1.4, fintech 1.2, health and bio
/// tech 1.1, SaaS and B2B 1.0, marketplaces 0.9, consumer 0.8, hardware 0.6,
/// 1.0 for any other sector.
pub open spec fn sector_adjustment_spec(sector: Seq<char>) -> nat {
    if sector == "ai"@ || sector == "artificial_intelligence"@ {
        14
    } else if sector == "fintech"@ {
        12
    } else if sector == "healthtech"@ || sector == "biotech"@ {
        11
    } else if sector == "saas"@ || sector == "b2b"@ {
        10
    } else if sector == "marketplace"@ {
        9
    } else if sector == "consumer"@ {
        8
    } else if sector == "hardware"@ {
        6
    } else {
        10
    }
}

/// The sector a valuation uses: the one given, else SaaS.
pub open spec fn sector_or_default(sector: Option<String>) -> Seq<char> {
    text_or(sector, "saas"@)
}

/// How fast revenue grows, against the growth tiers.
#[derive(PartialEq, Eq, Structural, Clone, Copy, Debug)]
pub enum GrowthBand {
    Over200,
    Over100,
    Over50,
    AtMost50,
}

/// The band of a growth rate, from where it lies relative to 200, 100 and
/// 50 percent.
pub open spec fn growth_band_spec(vs_high: Placement, vs_mid: Placement, vs_low: Placement) -> GrowthBand {
    if vs_high.above() {
        GrowthBand::Over200
    } else if vs_mid.above() {
        GrowthBand::Over100
    } else if vs_low.above() {
        GrowthBand::Over50
    } else {
        GrowthBand::AtMost50
    }
}

/// The growth adjustment of a band, in tenths: 1.5, 1.2, 1.0, 0.7.
pub open spec fn growth_adjustment_spec(band: GrowthBand) -> nat {
    match band {
        GrowthBand::Over200 => 15,
        GrowthBand::Over100 => 12,
        GrowthBand::Over50 => 10,
        GrowthBand::AtMost50 => 7,
    }
}

/// The base multiple of a stage, in tenths.
pub fn base_multiple_tenths(stage: &str, has_revenue: bool) -> (r: u32)
    ensures
        r == base_multiple_spec(stage@, has_revenue),
{
    if text_eq(stage, "pre-seed") || text_eq(stage, "pre_seed") {
        200
    } else if text_eq(stage, "seed") {
        if has_revenue { 150 } else { 100 }
    } else if text_eq(stage, "series_a") || text_eq(stage, "series-a") || text_eq(stage, "a") {
        120
    } else if text_eq(stage, "series_b") || text_eq(stage, "series-b") || text_eq(stage, "b") {
        100
    } else if text_eq(stage, "series_c") || text_eq(stage, "series-c") || text_eq(stage, "c") {
        80
    } else {
        100
    }
}

/// The sector adjustment of an optional sector, in tenths.
pub fn sector_adjustment_tenths(sector: &Option<String>) -> (r: u32)
    ensures
        r == sector_adjustment_spec(sector_or_default(*sector)),
{
    let s: &str = match sector {
        Some(s) => s.as_str(),
        None => "saas",
    };
    if text_eq(s, "ai") || text_eq(s, "artificial_intelligence") {
        14
    } else if text_eq(s, "fintech") {
        12
    } else if text_eq(s, "healthtech") || text_eq(s, "biotech") {
        11
    } else if text_eq(s, "saas") || text_eq(s, "b2b") {
        10
    } else if text_eq(s, "marketplace") {
        9
    } else if text_eq(s, "consumer") {
        8
    } else if text_eq(s, "hardware") {
        6
    } else {
        10
    }
}

impl GrowthBand {
    /// The band of a growth rate.
    pub fn of_placements(vs_high: Placement, vs_mid: Placement, vs_low: Placement) -> (r: GrowthBand)
        ensures
            r == growth_band_spec(vs_high, vs_mid, vs_low),
    {
        if vs_high.is_above() {
            GrowthBand::Over200
        } else if vs_mid.is_above() {
            GrowthBand::Over100
        } else if vs_low.is_above() {
            GrowthBand::Over50
        } else {
            GrowthBand::AtMost50
        }
    }

    /// The band's growth adjustment, in tenths.
    pub fn adjustment_tenths(&self) -> (r: u32)
        ensures
            r == growth_adjustment_spec(*self),
    {
        match self {
            GrowthBand::Over200 => 15,
            GrowthBand::Over100 => 12,
            GrowthBand::Over50 => 10,
            GrowthBand::AtMost50 => 7,
        }
    }
}

/// How the estimate was made.
pub fn valuation_methodology() -> (r: &'static str)
    ensures
        r@ == "Revenue multiple adjusted for stage, growth rate, and sector"@,
{
    "Revenue multiple adjusted for stage, growth rate, and sector"
}

} // verus!

verus! {

/// The base multiple of every stage name, in tenths, with or without revenue:
/// 20x for "pre-seed" and "pre_seed"; for "seed" 15x with revenue and 10x
/// without; 12x for "series_a", "series-a" and "a"; 10x for "series_b",
/// "series-b" and "b"; 8x for "series_c", "series-c" and "c".
pub proof fn lemma_base_multiple_table(has_revenue: bool)
    ensures
        base_multiple_spec("pre-seed"@, has_revenue) == 200,
        base_multiple_spec("pre_seed"@, has_revenue) == 200,
        base_multiple_spec("seed"@, true) == 150,
        base_multiple_spec("seed"@, false) == 100,
        base_multiple_spec("series_a"@, has_revenue) == 120,
        base_multiple_spec("series-a"@, has_revenue) == 120,
        base_multiple_spec("a"@, has_revenue) == 120,
        base_multiple_spec("series_b"@, has_revenue) == 100,
        base_multiple_spec("series-b"@, has_revenue) == 100,
        base_multiple_spec("b"@, has_revenue) == 100,
        base_multiple_spec("series_c"@, has_revenue) == 80,
        base_multiple_spec("series-c"@, has_revenue) == 80,
        base_multiple_spec("c"@, has_revenue) == 80,
{
    reveal_strlit("pre-seed");
    reveal_strlit("pre_seed");
    reveal_strlit("seed");
    reveal_strlit("series_a");
    reveal_strlit("series-a");
    reveal_strlit("a");
    reveal_strlit("series_b");
    reveal_strlit("series-b");
    reveal_strlit("b");
    reveal_strlit("series_c");
    reveal_strlit("series-c");
    reveal_strlit("c");
    assert("pre-seed"@.len() == 8 && "pre_seed"@.len() == 8 && "seed"@.len() == 4);
    assert("series_a"@.len() == 8 && "series-a"@.len() == 8 && "a"@.len() == 1);
    assert("series_b"@.len() == 8 && "series-b"@.len() == 8 && "b"@.len() == 1);
    assert("series_c"@.len() == 8 && "series-c"@.len() == 8 && "c"@.len() == 1);
    assert("pre-seed"@ != "pre_seed"@) by {
        assert("pre-seed"@[3] != "pre_seed"@[3]);
    }
    assert("b"@ != "a"@) by {
        assert("b"@[0] != "a"@[0]);
    }
    assert("c"@ != "a"@ && "c"@ != "b"@) by {
        assert("c"@[0] != "a"@[0] && "c"@[0] != "b"@[0]);
    }
    assert("pre-seed"@[0] == 'p' && "pre_seed"@[0] == 'p');
    assert("series_a"@[0] == 's' && "series-a"@[0] == 's' && "series_b"@[0] == 's');
    assert("series-b"@[0] == 's' && "series_c"@[0] == 's' && "series-c"@[0] == 's');
    assert("series_a"@ != "series-a"@) by {
        assert("series_a"@[6] != "series-a"@[6]);
    }
    assert("series_b"@ != "series_a"@ && "series_b"@ != "series-a"@) by {
        assert("series_b"@[7] != "series_a"@[7]);
    }
    assert("series-b"@ != "series_a"@ && "series-b"@ != "series-a"@ && "series-b"@ != "series_b"@) by {
        assert("series-b"@[7] != "series_a"@[7]);
        assert("series-b"@[6] != "series_b"@[6]);
    }
    assert("series_c"@ != "series_a"@ && "series_c"@ != "series-a"@ && "series_c"@ != "series_b"@
        && "series_c"@ != "series-b"@) by {
        assert("series_c"@[7] != "series_a"@[7]);
    }
    assert("series-c"@ != "series_a"@ && "series-c"@ != "series-a"@ && "series-c"@ != "series_b"@
        && "series-c"@ != "series-b"@ && "series-c"@ != "series_c"@) by {
        assert("series-c"@[7] != "series_a"@[7]);
        assert("series-c"@[6] != "series_c"@[6]);
    }
}

/// The sector adjustments, in tenths: AI 1.4, fintech 1.2, health and bio tech
/// 1.1, SaaS and B2B 1.0, marketplaces 0.9, consumer 0.8, hardware 0.6; a
/// valuation without a sector is adjusted as SaaS.
pub proof fn lemma_sector_table()
    ensures
        sector_adjustment_spec("ai"@) == 14,
        sector_adjustment_spec("artificial_intelligence"@) == 14,
        sector_adjustment_spec("fintech"@) == 12,
        sector_adjustment_spec("healthtech"@) == 11,
        sector_adjustment_spec("biotech"@) == 11,
        sector_adjustment_spec("saas"@) == 10,
        sector_adjustment_spec("b2b"@) == 10,
        sector_adjustment_spec("marketplace"@) == 9,
        sector_adjustment_spec("consumer"@) == 8,
        sector_adjustment_spec("hardware"@) == 6,
        sector_adjustment_spec(sector_or_default(None)) == 10,
{
    reveal_strlit("ai");
    reveal_strlit("artificial_intelligence");
    reveal_strlit("fintech");
    reveal_strlit("healthtech");
    reveal_strlit("biotech");
    reveal_strlit("saas");
    reveal_strlit("b2b");
    reveal_strlit("marketplace");
    reveal_strlit("consumer");
    reveal_strlit("hardware");
    assert("ai"@.len() == 2 && "artificial_intelligence"@.len() == 23 && "fintech"@.len() == 7);
    assert("healthtech"@.len() == 10 && "biotech"@.len() == 7 && "saas"@.len() == 4);
    assert("b2b"@.len() == 3 && "marketplace"@.len() == 11 && "consumer"@.len() == 8);
    assert("hardware"@.len() == 8);
    assert("biotech"@ != "fintech"@) by {
        assert("biotech"@[0] != "fintech"@[0]);
    }
    assert("hardware"@ != "consumer"@) by {
        assert("hardware"@[0] != "consumer"@[0]);
    }
}

/// Faster growth never lowers the growth adjustment: over 200% 1.5, over 100%
/// 1.2, over 50% 1.0, otherwise 0.7.
pub proof fn lemma_growth_adjustment_table()
    ensures
        growth_adjustment_spec(GrowthBand::Over200) == 15,
        growth_adjustment_spec(GrowthBand::Over100) == 12,
        growth_adjustment_spec(GrowthBand::Over50) == 10,
        growth_adjustment_spec(GrowthBand::AtMost50) == 7,
        growth_band_spec(Placement::Above, Placement::Above, Placement::Above) == GrowthBand::Over200,
        growth_band_spec(Placement::At, Placement::Above, Placement::Above) == GrowthBand::Over100,
        growth_band_spec(Placement::Below, Placement::At, Placement::Above) == GrowthBand::Over50,
        growth_band_spec(Placement::Below, Placement::Below, Placement::At) == GrowthBand::AtMost50,
{
}

} // verus!
