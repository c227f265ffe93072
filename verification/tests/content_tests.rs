use mcp_fundraise::compare::Placement;
use mcp_fundraise::compare::Placement::{Above, At, Below, Unordered};
use mcp_fundraise::dataroom::{stage_tier, DataRoomInput};
use mcp_fundraise::metrics::{
    benchmark_for, is_inverse_metric, metric_number, unknown_metric_message, BenchmarkStage,
    Percentile, Rating,
};
use mcp_fundraise::red_flags::{overall, red_flags, Overall, RedFlag, RevenueCheck, Severity};
use mcp_fundraise::runway::{zero_cash_month, zero_cash_month_at, zero_cash_offset_days, RunwayStatus};
use mcp_fundraise::terms::{board_seats, term_flags, TermFlag};
use mcp_fundraise::valuation::{
    base_multiple_tenths, sector_adjustment_tenths, valuation_methodology, GrowthBand,
};

fn checklist(stage: &str) -> Vec<&'static str> {
    DataRoomInput { stage: stage.to_string() }.checklist()
}

#[test]
fn data_room_sizes_by_stage() {
    assert_eq!(checklist("pre-seed").len(), 6);
    assert_eq!(checklist("pre_seed").len(), 6);
    assert_eq!(checklist("seed").len(), 11);
    assert_eq!(checklist("series_a").len(), 21);
    assert_eq!(checklist("a").len(), 21);
    assert_eq!(checklist("series_b").len(), 31);
    assert_eq!(checklist("growth").len(), 31);
    assert_eq!(checklist("series-a").len(), 31);
    assert_eq!(stage_tier("seed"), 1);
}

#[test]
fn data_room_lists_grow_by_prefix() {
    let stages = ["pre-seed", "seed", "series_a", "series_b"];
    for w in stages.windows(2) {
        let a = checklist(w[0]);
        let b = checklist(w[1]);
        assert!(a.len() < b.len());
        assert_eq!(&b[..a.len()], &a[..]);
    }
    let s = checklist("seed");
    assert_eq!(s[0], "Company formation docs (articles, bylaws)");
    assert_eq!(s[6], "Product demo or screenshots");
    assert_eq!(checklist("x")[30], "International structure (if any)");
}

#[test]
fn benchmark_lookup() {
    assert_eq!(BenchmarkStage::of_stage("pre-seed"), BenchmarkStage::Seed);
    assert_eq!(BenchmarkStage::of_stage("a"), BenchmarkStage::SeriesA);
    assert_eq!(BenchmarkStage::of_stage("series-a"), BenchmarkStage::SeriesB);
    assert_eq!(BenchmarkStage::of_stage("series_c"), BenchmarkStage::SeriesB);
    assert_eq!(BenchmarkStage::SeriesA.name(), "series_a");
    let b = benchmark_for(BenchmarkStage::Seed, "burn_multiple").unwrap();
    assert_eq!((b.p25, b.median, b.p75), (15, 30, 60));
    let b = benchmark_for(BenchmarkStage::SeriesB, "ltv").unwrap();
    assert_eq!((b.p25, b.median, b.p75), (100000, 300000, 1000000));
    let b = benchmark_for(BenchmarkStage::SeriesA, "gross_margin").unwrap();
    assert_eq!((b.p25, b.median, b.p75), (650, 780, 880));
    assert!(benchmark_for(BenchmarkStage::Seed, "arr").is_none());
    assert_eq!(metric_number("nrr"), Some(3));
    assert!(unknown_metric_message().starts_with("Unknown metric or stage."));
}

#[test]
fn benchmarks_are_ordered() {
    let metrics = [
        "cac", "ltv", "churn", "nrr", "burn_multiple", "magic_number", "payback_months",
        "gross_margin",
    ];
    for st in [BenchmarkStage::Seed, BenchmarkStage::SeriesA, BenchmarkStage::SeriesB] {
        for m in metrics.iter() {
            let b = benchmark_for(st, m).unwrap();
            assert!(b.p25 <= b.median && b.median <= b.p75);
        }
    }
}

#[test]
fn inverse_metrics() {
    for m in ["cac", "churn", "burn_multiple", "payback_months"] {
        assert!(is_inverse_metric(m));
    }
    for m in ["ltv", "nrr", "magic_number", "gross_margin", "other"] {
        assert!(!is_inverse_metric(m));
    }
}

#[test]
fn percentile_and_rating() {
    assert_eq!(Percentile::of_placements(At, Below, Below), Percentile::Bottom25);
    assert_eq!(Percentile::of_placements(Above, At, Below), Percentile::BelowMedian);
    assert_eq!(Percentile::of_placements(Above, Above, At), Percentile::AboveMedian);
    assert_eq!(Percentile::of_placements(Above, Above, Above), Percentile::Top25);
    assert_eq!(Percentile::Top25.name(), "top_25");
    assert_eq!(Rating::of_placements(true, At, Below, Below), Rating::Excellent);
    assert_eq!(Rating::of_placements(true, Above, Above, Above), Rating::Poor);
    assert_eq!(Rating::of_placements(false, Above, Above, At), Rating::Excellent);
    assert_eq!(Rating::of_placements(false, Above, At, Below), Rating::Good);
    assert_eq!(Rating::of_placements(false, At, Below, Below), Rating::Fair);
    assert_eq!(Rating::of_placements(false, Below, Below, Below), Rating::Poor);
    assert_eq!(Rating::of_placements(false, Unordered, Unordered, Unordered), Rating::Poor);
    assert_eq!(Rating::Fair.name(), "fair");
}

#[test]
fn valuation_multiples() {
    assert_eq!(base_multiple_tenths("pre-seed", false), 200);
    assert_eq!(base_multiple_tenths("seed", true), 150);
    assert_eq!(base_multiple_tenths("seed", false), 100);
    assert_eq!(base_multiple_tenths("series-a", true), 120);
    assert_eq!(base_multiple_tenths("b", true), 100);
    assert_eq!(base_multiple_tenths("c", true), 80);
    assert_eq!(base_multiple_tenths("growth", true), 100);
    assert_eq!(sector_adjustment_tenths(&Some("ai".to_string())), 14);
    assert_eq!(sector_adjustment_tenths(&Some("hardware".to_string())), 6);
    assert_eq!(sector_adjustment_tenths(&Some("space".to_string())), 10);
    assert_eq!(sector_adjustment_tenths(&None), 10);
    assert_eq!(GrowthBand::of_placements(Below, Above, Above), GrowthBand::Over100);
    assert_eq!(GrowthBand::of_placements(Below, At, Above), GrowthBand::Over50);
    assert_eq!(GrowthBand::of_placements(Below, Below, At).adjustment_tenths(), 7);
    assert_eq!(GrowthBand::Over200.adjustment_tenths(), 15);
    // 120% growth, seed with revenue, AI: 15 * 1.2 * 1.4 = 25.2
    let m = base_multiple_tenths("seed", true) as f64 / 10.0
        * (GrowthBand::of_placements(Below, Above, Above).adjustment_tenths() as f64 / 10.0)
        * (sector_adjustment_tenths(&Some("ai".into())) as f64 / 10.0);
    assert_eq!((m * 100.0).round() / 100.0, 25.2);
    assert!(valuation_methodology().contains("Revenue multiple"));
}

#[test]
fn runway_status_by_months() {
    assert_eq!(RunwayStatus::of_months(0), RunwayStatus::Critical);
    assert_eq!(RunwayStatus::of_months(6), RunwayStatus::Critical);
    assert_eq!(RunwayStatus::of_months(7), RunwayStatus::RaiseNow);
    assert_eq!(RunwayStatus::of_months(12), RunwayStatus::RaiseNow);
    assert_eq!(RunwayStatus::of_months(18), RunwayStatus::Healthy);
    assert_eq!(RunwayStatus::of_months(19), RunwayStatus::Comfortable);
    assert_eq!(RunwayStatus::of_months(120).name(), "comfortable");
    assert_eq!(
        RunwayStatus::RaiseNow.recommendation(),
        "Start fundraising now (takes 3-6 months)"
    );
    assert_eq!(zero_cash_offset_days(7), 210);
}

#[test]
fn runway_status_never_worsens_with_more_months() {
    let rank = |s: RunwayStatus| match s {
        RunwayStatus::Critical => 0,
        RunwayStatus::RaiseNow => 1,
        RunwayStatus::Healthy => 2,
        RunwayStatus::Comfortable => 3,
    };
    for m in 0..130u32 {
        assert!(rank(RunwayStatus::of_months(m)) <= rank(RunwayStatus::of_months(m + 1)));
    }
}

#[test]
fn red_flags_from_readme_example() {
    // mrr 30000, burn 150000 (multiple 5 > 3), growth 8 < 15, concentration 45 > 30, ltv/cac 2.1 < 3
    let flags = red_flags(
        RevenueCheck::Positive { burn_multiple_vs_limit: Placement::Above },
        Some(Placement::Below),
        Some(Placement::Above),
        Some(Placement::Below),
        None,
    );
    assert_eq!(
        flags,
        vec![
            RedFlag::HighBurnMultiple,
            RedFlag::LowGrowth,
            RedFlag::CustomerConcentration,
            RedFlag::LowLtvCac
        ]
    );
    assert_eq!(overall(&flags), Overall::Concerning);
    assert_eq!(overall(&flags).name(), "concerning");
}

#[test]
fn red_flags_edges() {
    let none = red_flags(RevenueCheck::NotGiven, None, None, None, None);
    assert!(none.is_empty());
    assert_eq!(overall(&none), Overall::Clean);
    let minor = red_flags(RevenueCheck::NotPositive, None, None, Some(Placement::At), Some(19));
    assert_eq!(minor, vec![RedFlag::NoRevenue, RedFlag::LongTimeSinceRaise]);
    assert_eq!(overall(&minor), Overall::MinorIssues);
    assert!(red_flags(RevenueCheck::NotGiven, None, None, None, Some(18)).is_empty());
    assert!(red_flags(
        RevenueCheck::Positive { burn_multiple_vs_limit: Placement::At },
        Some(Placement::At),
        Some(Placement::At),
        None,
        None
    )
    .is_empty());
    assert_eq!(RedFlag::LongTimeSinceRaise.threshold(), Some(18));
    assert_eq!(RedFlag::NoRevenue.threshold(), None);
    assert_eq!(RedFlag::LowLtvCac.severity(), Severity::Medium);
    assert_eq!(RedFlag::LowGrowth.severity().name(), "high");
    assert_eq!(RedFlag::CustomerConcentration.title(), "Customer concentration");
}

#[test]
fn term_sheet_flags() {
    assert_eq!(
        term_flags(Above, Above, Some(2)),
        vec![TermFlag::LiquidationPreference, TermFlag::LargeOptionPool, TermFlag::BoardControl]
    );
    assert!(term_flags(At, At, Some(1)).is_empty());
    assert!(term_flags(Below, Below, None).is_empty());
    assert_eq!(board_seats(None), 0);
    assert_eq!(
        TermFlag::LargeOptionPool.text(),
        "Large option pool (>15%) dilutes founders pre-money"
    );
}

#[test]
fn zero_cash_month_counts_thirty_day_months() {
    let t = chrono::DateTime::parse_from_rfc3339("2025-01-15T10:00:00Z").unwrap();
    let (secs, nanos) = (t.timestamp(), t.timestamp_subsec_nanos());
    assert_eq!(zero_cash_month_at(secs, nanos, 0).unwrap(), "2025-01");
    assert_eq!(zero_cash_month_at(secs, nanos, 1).unwrap(), "2025-02");
    assert_eq!(zero_cash_month_at(secs, nanos, 12).unwrap(), "2026-01");
    assert_eq!(zero_cash_month_at(secs, nanos, 120).unwrap(), "2034-11");
    assert!(zero_cash_month_at(i64::MAX, 0, 1).is_none());
    assert_eq!(zero_cash_month(3).unwrap().len(), 7);
}

#[test]
fn data_room_documents_do_not_repeat() {
    let all = checklist("series_b");
    for i in 0..all.len() {
        for j in (i + 1)..all.len() {
            assert_ne!(all[i], all[j]);
        }
    }
}
