//! SaaS metric benchmarks by stage, and where a company's metric falls
//! among them. Benchmark values are in tenths of the metric's unit.
use vstd::prelude::*;

use crate::compare::Placement;
use crate::text::text_eq;

verus! {

/// The stage whose benchmarks apply.
#[derive(PartialEq, Eq, Structural, Clone, Copy, Debug)]
pub enum BenchmarkStage {
    Seed,
    SeriesA,
    SeriesB,
}

/// The benchmark stage for a stage name: seed for "seed", "pre-seed" and
/// "pre_seed", series A for "series_a" and "a", series B for anything else.
pub open spec fn benchmark_stage_spec(stage: Seq<char>) -> BenchmarkStage {
    if stage == "seed"@ || stage == "pre-seed"@ || stage == "pre_seed"@ {
        BenchmarkStage::Seed
    } else if stage == "series_a"@ || stage == "a"@ {
        BenchmarkStage::SeriesA
    } else {
        BenchmarkStage::SeriesB
    }
}

/// The benchmarked metrics, numbered 0 to 7 in the order cac, ltv, churn,
/// nrr, burn_multiple, magic_number, payback_months, gross_margin.
pub open spec fn metric_number_spec(metric: Seq<char>) -> Option<nat> {
    if metric == "cac"@ {
        Some(0)
    } else if metric == "ltv"@ {
        Some(1)
    } else if metric == "churn"@ {
        Some(2)
    } else if metric == "nrr"@ {
        Some(3)
    } else if metric == "burn_multiple"@ {
        Some(4)
    } else if metric == "magic_number"@ {
        Some(5)
    } else if metric == "payback_months"@ {
        Some(6)
    } else if metric == "gross_margin"@ {
        Some(7)
    } else {
        None
    }
}

/// The 25th percentile, median and 75th percentile of metric `k` at a
/// stage, in tenths.
pub open spec fn benchmark_row(stage: BenchmarkStage, k: nat) -> (nat, nat, nat) {
    match stage {
        BenchmarkStage::Seed => if k == 0 {
            (2000, 5000, 15000)
        } else if k == 1 {
            (20000, 50000, 150000)
        } else if k == 2 {
            (20, 50, 80)
        } else if k == 3 {
            (900, 1050, 1300)
        } else if k == 4 {
            (15, 30, 60)
        } else if k == 5 {
            (3, 7, 15)
        } else if k == 6 {
            (60, 120, 240)
        } else {
            (600, 750, 850)
        },
        BenchmarkStage::SeriesA => if k == 0 {
            (3000, 8000, 20000)
        } else if k == 1 {
            (50000, 150000, 500000)
        } else if k == 2 {
            (15, 30, 60)
        } else if k == 3 {
            (1000, 1150, 1400)
        } else if k == 4 {
            (10, 20, 40)
        } else if k == 5 {
            (5, 10, 20)
        } else if k == 6 {
            (60, 120, 180)
        } else {
            (650, 780, 880)
        },
        BenchmarkStage::SeriesB => if k == 0 {
            (5000, 12000, 30000)
        } else if k == 1 {
            (100000, 300000, 1000000)
        } else if k == 2 {
            (10, 25, 50)
        } else if k == 3 {
            (1050, 1200, 1500)
        } else if k == 4 {
            (8, 15, 30)
        } else if k == 5 {
            (7, 12, 25)
        } else if k == 6 {
            (40, 100, 160)
        } else {
            (700, 800, 900)
        },
    }
}

/// The benchmark of a metric at a stage, if the metric is benchmarked.
pub open spec fn benchmark_table(stage: BenchmarkStage, metric: Seq<char>) -> Option<(nat, nat, nat)> {
    match metric_number_spec(metric) {
        Some(k) => Some(benchmark_row(stage, k)),
        None => None,
    }
}

/// Metrics for which less is better: cac, churn, burn_multiple and payback_months.
pub open spec fn is_inverse_metric_spec(metric: Seq<char>) -> bool {
    metric == "cac"@ || metric == "churn"@ || metric == "burn_multiple"@ || metric
        == "payback_months"@
}

/// Benchmark thresholds of one metric, in tenths.
pub struct Benchmark {
    pub p25: u32,
    pub median: u32,
    pub p75: u32,
}

/// Which quarter of the benchmark a value falls in.
#[derive(PartialEq, Eq, Structural, Clone, Copy, Debug)]
pub enum Percentile {
    Bottom25,
    BelowMedian,
    AboveMedian,
    Top25,
}

/// How good a value is for its metric.
#[derive(PartialEq, Eq, Structural, Clone, Copy, Debug)]
pub enum Rating {
    Excellent,
    Good,
    Fair,
    Poor,
}

/// The quarter of a value, from where it lies relative to the 25th
/// percentile, the median and the 75th percentile.
pub open spec fn percentile_spec(vs_p25: Placement, vs_median: Placement, vs_p75: Placement) -> Percentile {
    if vs_p25.at_most() {
        Percentile::Bottom25
    } else if vs_median.at_most() {
        Percentile::BelowMedian
    } else if vs_p75.at_most() {
        Percentile::AboveMedian
    } else {
        Percentile::Top25
    }
}

/// The rating of a value: for a metric where less is better, at most the
/// 25th percentile is excellent, at most the median good, at most the 75th
/// fair; otherwise at least the 75th percentile is excellent, at least the
/// median good, at least the 25th fair; anything else is poor.
pub open spec fn rating_spec(
    inverse: bool,
    vs_p25: Placement,
    vs_median: Placement,
    vs_p75: Placement,
) -> Rating {
    if inverse {
        if vs_p25.at_most() {
            Rating::Excellent
        } else if vs_median.at_most() {
            Rating::Good
        } else if vs_p75.at_most() {
            Rating::Fair
        } else {
            Rating::Poor
        }
    } else {
        if vs_p75.at_least() {
            Rating::Excellent
        } else if vs_median.at_least() {
            Rating::Good
        } else if vs_p25.at_least() {
            Rating::Fair
        } else {
            Rating::Poor
        }
    }
}

impl BenchmarkStage {
    /// The benchmark stage for a stage name.
    pub fn of_stage(stage: &str) -> (r: BenchmarkStage)
        ensures
            r == benchmark_stage_spec(stage@),
    {
        if text_eq(stage, "seed") || text_eq(stage, "pre-seed") || text_eq(stage, "pre_seed") {
            BenchmarkStage::Seed
        } else if text_eq(stage, "series_a") || text_eq(stage, "a") {
            BenchmarkStage::SeriesA
        } else {
            BenchmarkStage::SeriesB
        }
    }

    /// The stage's name.
    pub fn name(&self) -> (r: &'static str)
        ensures
            r@ == match *self {
                BenchmarkStage::Seed => "seed"@,
                BenchmarkStage::SeriesA => "series_a"@,
                BenchmarkStage::SeriesB => "series_b"@,
            },
    {
        match self {
            BenchmarkStage::Seed => "seed",
            BenchmarkStage::SeriesA => "series_a",
            BenchmarkStage::SeriesB => "series_b",
        }
    }
}

/// The number of a benchmarked metric.
pub fn metric_number(metric: &str) -> (r: Option<u8>)
    ensures
        match r {
            Some(k) => metric_number_spec(metric@) == Some(k as nat),
            None => metric_number_spec(metric@) is None,
        },
{
    if text_eq(metric, "cac") {
        Some(0)
    } else if text_eq(metric, "ltv") {
        Some(1)
    } else if text_eq(metric, "churn") {
        Some(2)
    } else if text_eq(metric, "nrr") {
        Some(3)
    } else if text_eq(metric, "burn_multiple") {
        Some(4)
    } else if text_eq(metric, "magic_number") {
        Some(5)
    } else if text_eq(metric, "payback_months") {
        Some(6)
    } else if text_eq(metric, "gross_margin") {
        Some(7)
    } else {
        None
    }
}

/// Row `k` of the benchmark table of a stage.
fn row(stage: BenchmarkStage, k: u8) -> (b: Benchmark)
    requires
        k < 8,
    ensures
        (b.p25 as nat, b.median as nat, b.p75 as nat) == benchmark_row(stage, k as nat),
{
    let (p25, median, p75): (u32, u32, u32) = match stage {
        BenchmarkStage::Seed => match k {
            0 => (2000, 5000, 15000),
            1 => (20000, 50000, 150000),
            2 => (20, 50, 80),
            3 => (900, 1050, 1300),
            4 => (15, 30, 60),
            5 => (3, 7, 15),
            6 => (60, 120, 240),
            _ => (600, 750, 850),
        },
        BenchmarkStage::SeriesA => match k {
            0 => (3000, 8000, 20000),
            1 => (50000, 150000, 500000),
            2 => (15, 30, 60),
            3 => (1000, 1150, 1400),
            4 => (10, 20, 40),
            5 => (5, 10, 20),
            6 => (60, 120, 180),
            _ => (650, 780, 880),
        },
        BenchmarkStage::SeriesB => match k {
            0 => (5000, 12000, 30000),
            1 => (100000, 300000, 1000000),
            2 => (10, 25, 50),
            3 => (1050, 1200, 1500),
            4 => (8, 15, 30),
            5 => (7, 12, 25),
            6 => (40, 100, 160),
            _ => (700, 800, 900),
        },
    };
    Benchmark { p25, median, p75 }
}

/// The benchmark of a metric at a stage; none for a metric that is not
/// benchmarked.
pub fn benchmark_for(stage: BenchmarkStage, metric: &str) -> (r: Option<Benchmark>)
    ensures
        match r {
            Some(b) => benchmark_table(stage, metric@) == Some(
                (b.p25 as nat, b.median as nat, b.p75 as nat),
            ),
            None => benchmark_table(stage, metric@) is None,
        },
{
    match metric_number(metric) {
        Some(k) => Some(row(stage, k)),
        None => None,
    }
}

/// Whether less is better for the metric.
pub fn is_inverse_metric(metric: &str) -> (r: bool)
    ensures
        r == is_inverse_metric_spec(metric@),
{
    text_eq(metric, "cac") || text_eq(metric, "churn") || text_eq(metric, "burn_multiple")
        || text_eq(metric, "payback_months")
}

impl Percentile {
    /// The quarter of a value.
    pub fn of_placements(vs_p25: Placement, vs_median: Placement, vs_p75: Placement) -> (r: Percentile)
        ensures
            r == percentile_spec(vs_p25, vs_median, vs_p75),
    {
        if vs_p25.is_at_most() {
            Percentile::Bottom25
        } else if vs_median.is_at_most() {
            Percentile::BelowMedian
        } else if vs_p75.is_at_most() {
            Percentile::AboveMedian
        } else {
            Percentile::Top25
        }
    }

    /// The quarter's name.
    pub fn name(&self) -> (r: &'static str)
        ensures
            r@ == match *self {
                Percentile::Bottom25 => "bottom_25"@,
                Percentile::BelowMedian => "below_median"@,
                Percentile::AboveMedian => "above_median"@,
                Percentile::Top25 => "top_25"@,
            },
    {
        match self {
            Percentile::Bottom25 => "bottom_25",
            Percentile::BelowMedian => "below_median",
            Percentile::AboveMedian => "above_median",
            Percentile::Top25 => "top_25",
        }
    }
}

impl Rating {
    /// The rating of a value.
    pub fn of_placements(
        inverse: bool,
        vs_p25: Placement,
        vs_median: Placement,
        vs_p75: Placement,
    ) -> (r: Rating)
        ensures
            r == rating_spec(inverse, vs_p25, vs_median, vs_p75),
    {
        if inverse {
            if vs_p25.is_at_most() {
                Rating::Excellent
            } else if vs_median.is_at_most() {
                Rating::Good
            } else if vs_p75.is_at_most() {
                Rating::Fair
            } else {
                Rating::Poor
            }
        } else {
            if vs_p75.is_at_least() {
                Rating::Excellent
            } else if vs_median.is_at_least() {
                Rating::Good
            } else if vs_p25.is_at_least() {
                Rating::Fair
            } else {
                Rating::Poor
            }
        }
    }

    /// The rating's name.
    pub fn name(&self) -> (r: &'static str)
        ensures
            r@ == match *self {
                Rating::Excellent => "excellent"@,
                Rating::Good => "good"@,
                Rating::Fair => "fair"@,
                Rating::Poor => "poor"@,
            },
    {
        match self {
            Rating::Excellent => "excellent",
            Rating::Good => "good",
            Rating::Fair => "fair",
            Rating::Poor => "poor",
        }
    }
}

/// The answer to a metric that has no benchmark.
pub fn unknown_metric_message() -> (r: &'static str)
    ensures
        r@ == "Unknown metric or stage. Metrics: cac, ltv, churn, nrr, burn_multiple, magic_number, payback_months, gross_margin. Stages: seed, series_a, series_b"@,
{
    "Unknown metric or stage. Metrics: cac, ltv, churn, nrr, burn_multiple, magic_number, payback_months, gross_margin. Stages: seed, series_a, series_b"
}

} // verus!

verus! {

/// Every benchmark is ordered: 25th percentile at most the median, median at
/// most the 75th percentile.
pub proof fn lemma_benchmarks_ordered(stage: BenchmarkStage, metric: Seq<char>)
    ensures
        benchmark_table(stage, metric) matches Some((p25, median, p75)) ==> p25 <= median <= p75,
{
}

/// A value above the 75th percentile is in the top quarter; for a metric
/// where more is better it is excellent, and where less is better, poor.
pub proof fn lemma_top_quarter(inverse: bool, vs_p25: Placement, vs_median: Placement)
    requires
        vs_p25 == Placement::Above,
        vs_median == Placement::Above,
    ensures
        percentile_spec(vs_p25, vs_median, Placement::Above) == Percentile::Top25,
        rating_spec(inverse, vs_p25, vs_median, Placement::Above) == if inverse {
            Rating::Poor
        } else {
            Rating::Excellent
        },
{
}

} // verus!

verus! {

/// Where the number `value` lies relative to the number `threshold`.
pub open spec fn placement_of(value: int, threshold: int) -> Placement {
    if value < threshold {
        Placement::Below
    } else if value == threshold {
        Placement::At
    } else {
        Placement::Above
    }
}

impl Rating {
    /// From best to worst: excellent 0, good 1, fair 2, poor 3.
    pub open spec fn rank(self) -> int {
        match self {
            Rating::Excellent => 0,
            Rating::Good => 1,
            Rating::Fair => 2,
            Rating::Poor => 3,
        }
    }
}

impl Percentile {
    /// From lowest to highest quarter: 0 to 3.
    pub open spec fn rank(self) -> int {
        match self {
            Percentile::Bottom25 => 0,
            Percentile::BelowMedian => 1,
            Percentile::AboveMedian => 2,
            Percentile::Top25 => 3,
        }
    }
}

/// The rating of a value against ordered benchmarks `p25 <= median <= p75`.
pub open spec fn rating_of_value(inverse: bool, value: int, p25: int, median: int, p75: int) -> Rating {
    rating_spec(
        inverse,
        placement_of(value, p25),
        placement_of(value, median),
        placement_of(value, p75),
    )
}

/// The quarter of a value against ordered benchmarks.
pub open spec fn percentile_of_value(value: int, p25: int, median: int, p75: int) -> Percentile {
    percentile_spec(placement_of(value, p25), placement_of(value, median), placement_of(value, p75))
}

/// How a value is rated against ordered benchmarks. Where less is better:
/// at most the 25th percentile is excellent, above it and at most the median
/// good, above the median and at most the 75th percentile fair, above it poor.
/// Where more is better: at least the 75th percentile is excellent, below it
/// and at least the median good, below the median and at least the 25th
/// percentile fair, below it poor.
pub proof fn lemma_rating_by_value(inverse: bool, value: int, p25: int, median: int, p75: int)
    requires
        p25 <= median <= p75,
    ensures
        inverse ==> rating_of_value(inverse, value, p25, median, p75) == if value <= p25 {
            Rating::Excellent
        } else if value <= median {
            Rating::Good
        } else if value <= p75 {
            Rating::Fair
        } else {
            Rating::Poor
        },
        !inverse ==> rating_of_value(inverse, value, p25, median, p75) == if value >= p75 {
            Rating::Excellent
        } else if value >= median {
            Rating::Good
        } else if value >= p25 {
            Rating::Fair
        } else {
            Rating::Poor
        },
{
}

/// Moving a value away from the good end never improves its rating: where
/// less is better, a larger value is rated no better; where more is better, a
/// smaller one is rated no better.
pub proof fn lemma_rating_monotone(
    inverse: bool,
    value: int,
    larger: int,
    p25: int,
    median: int,
    p75: int,
)
    requires
        p25 <= median <= p75,
        value <= larger,
    ensures
        inverse ==> rating_of_value(inverse, value, p25, median, p75).rank() <= rating_of_value(
            inverse,
            larger,
            p25,
            median,
            p75,
        ).rank(),
        !inverse ==> rating_of_value(inverse, larger, p25, median, p75).rank() <= rating_of_value(
            inverse,
            value,
            p25,
            median,
            p75,
        ).rank(),
{
    lemma_rating_by_value(inverse, value, p25, median, p75);
    lemma_rating_by_value(inverse, larger, p25, median, p75);
}

/// The quarter of a value against ordered benchmarks: at most the 25th
/// percentile the bottom quarter, at most the median below it, at most the
/// 75th percentile above the median, beyond it the top quarter; a larger
/// value never falls in a lower quarter.
pub proof fn lemma_percentile_by_value(value: int, larger: int, p25: int, median: int, p75: int)
    requires
        p25 <= median <= p75,
        value <= larger,
    ensures
        percentile_of_value(value, p25, median, p75) == if value <= p25 {
            Percentile::Bottom25
        } else if value <= median {
            Percentile::BelowMedian
        } else if value <= p75 {
            Percentile::AboveMedian
        } else {
            Percentile::Top25
        },
        percentile_of_value(value, p25, median, p75).rank() <= percentile_of_value(
            larger,
            p25,
            median,
            p75,
        ).rank(),
{
}

/// The seed-stage benchmarks, the less-is-better metrics and the stage names
/// that pick each table.
pub proof fn lemma_benchmark_table_values()
    ensures
        benchmark_table(BenchmarkStage::Seed, "churn"@) == Some((20nat, 50nat, 80nat)),
        benchmark_table(BenchmarkStage::Seed, "cac"@) == Some((2000nat, 5000nat, 15000nat)),
        benchmark_table(BenchmarkStage::SeriesA, "nrr"@) == Some((1000nat, 1150nat, 1400nat)),
        benchmark_table(BenchmarkStage::SeriesB, "gross_margin"@) == Some((700nat, 800nat, 900nat)),
        is_inverse_metric_spec("cac"@) && is_inverse_metric_spec("churn"@) && is_inverse_metric_spec(
            "burn_multiple"@,
        ) && is_inverse_metric_spec("payback_months"@),
        !is_inverse_metric_spec("ltv"@) && !is_inverse_metric_spec("nrr"@) && !is_inverse_metric_spec(
            "magic_number"@,
        ) && !is_inverse_metric_spec("gross_margin"@),
        benchmark_stage_spec("seed"@) == BenchmarkStage::Seed,
        benchmark_stage_spec("pre-seed"@) == BenchmarkStage::Seed,
        benchmark_stage_spec("pre_seed"@) == BenchmarkStage::Seed,
        benchmark_stage_spec("series_a"@) == BenchmarkStage::SeriesA,
        benchmark_stage_spec("a"@) == BenchmarkStage::SeriesA,
        benchmark_stage_spec("series_b"@) == BenchmarkStage::SeriesB,
{
    reveal_strlit("cac");
    reveal_strlit("ltv");
    reveal_strlit("churn");
    reveal_strlit("nrr");
    reveal_strlit("burn_multiple");
    reveal_strlit("magic_number");
    reveal_strlit("payback_months");
    reveal_strlit("gross_margin");
    reveal_strlit("seed");
    reveal_strlit("pre-seed");
    reveal_strlit("pre_seed");
    reveal_strlit("series_a");
    reveal_strlit("a");
    reveal_strlit("series_b");
    assert("cac"@.len() == 3 && "ltv"@.len() == 3 && "churn"@.len() == 5 && "nrr"@.len() == 3);
    assert("burn_multiple"@.len() == 13 && "magic_number"@.len() == 12);
    assert("payback_months"@.len() == 14 && "gross_margin"@.len() == 12);
    assert("magic_number"@ != "gross_margin"@) by {
        assert("magic_number"@[0] != "gross_margin"@[0]);
    }
    assert("cac"@ != "ltv"@ && "cac"@ != "nrr"@) by {
        assert("cac"@[0] != "ltv"@[0] && "cac"@[0] != "nrr"@[0]);
    }
    assert("ltv"@ != "nrr"@) by {
        assert("ltv"@[0] != "nrr"@[0]);
    }
    assert("seed"@.len() == 4 && "pre-seed"@.len() == 8 && "pre_seed"@.len() == 8);
    assert("series_a"@.len() == 8 && "a"@.len() == 1 && "series_b"@.len() == 8);
    assert("pre-seed"@ != "pre_seed"@) by {
        assert("pre-seed"@[3] != "pre_seed"@[3]);
    }
    assert("series_a"@ != "pre-seed"@ && "series_a"@ != "pre_seed"@) by {
        assert("series_a"@[0] != "pre-seed"@[0]);
    }
    assert("series_b"@ != "pre-seed"@ && "series_b"@ != "pre_seed"@ && "series_b"@ != "series_a"@) by {
        assert("series_b"@[0] != "pre-seed"@[0]);
        assert("series_b"@[7] != "series_a"@[7]);
    }
}

} // verus!
