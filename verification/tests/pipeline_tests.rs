use mcp_fundraise::follow_up::{elapsed_days, follow_up_action, Urgency};
use mcp_fundraise::pipeline::{
    is_closed, new_deal_id, pipeline_stage, DealInput, DealUpdateInput, Pipeline, PipelineError,
};

fn instant(text: &str) -> (i64, u32) {
    let t = chrono::DateTime::parse_from_rfc3339(text).unwrap();
    (t.timestamp(), t.timestamp_subsec_nanos())
}

fn input(name: &str, stage: Option<&str>) -> DealInput {
    DealInput {
        investor_name: name.to_string(),
        stage: stage.map(|s| s.to_string()),
        contact: None,
        notes: None,
        intro_type: None,
    }
}

#[test]
fn create_uses_defaults() {
    let mut p = Pipeline::new();
    let r = p.create_deal_at(
        "deal_00000001".to_string(),
        "2025-01-01T00:00:00+00:00".to_string(),
        "2025-01-01T00:00:00+00:00".to_string(),
        input("Sequoia", None),
    );
    assert_eq!(r.deal_id, "deal_00000001");
    assert_eq!(r.investor, "Sequoia");
    assert_eq!(r.stage, "researched");
    assert_eq!(r.intro_type, "cold");
    let d = &p.deals()[0];
    assert_eq!(d.contact, "");
    assert_eq!(d.notes, "");
    assert_eq!(p.deals().len(), 1);
}

#[test]
fn create_with_same_id_replaces() {
    let mut p = Pipeline::new();
    p.create_deal_at("deal_a".into(), "t0".into(), "t0".into(), input("A", None));
    p.create_deal_at("deal_b".into(), "t0".into(), "t0".into(), input("B", None));
    p.create_deal_at("deal_a".into(), "t1".into(), "t1".into(), input("A2", Some("contacted")));
    assert_eq!(p.deals().len(), 2);
    assert_eq!(p.deals()[0].investor_name, "A2");
    assert_eq!(p.deals()[0].stage, "contacted");
    assert_eq!(p.deals()[1].investor_name, "B");
}

#[test]
fn deal_create_gives_fresh_prefixed_ids() {
    let mut p = Pipeline::new();
    let r = p.deal_create(input("a16z", Some("contacted")));
    assert_eq!(r.deal_id.len(), 13);
    assert!(r.deal_id.starts_with("deal_"));
    assert!(r.deal_id[5..].chars().all(|c| c.is_ascii_hexdigit() && !c.is_ascii_uppercase()));
    assert_eq!(r.stage, "contacted");
    assert_eq!(p.position(&r.deal_id), Some(0));
}

#[test]
fn new_deal_id_has_uuid_prefix() {
    let a = new_deal_id();
    let b = new_deal_id();
    assert_eq!(a.len(), 13);
    assert!(a[5..].chars().all(|c| c.is_ascii_hexdigit()));
    assert_ne!(a, b);
}

#[test]
fn update_changes_stage_and_notes() {
    let mut p = Pipeline::new();
    p.create_deal_at("deal_x".into(), "c".into(), "u".into(), input("X", None));
    let r = p
        .update_deal_at(
            DealUpdateInput {
                deal_id: "deal_x".into(),
                stage: "term_sheet".into(),
                notes: Some("good call".into()),
            },
            "2025-03-01T00:00:00Z".into(),
        )
        .unwrap();
    assert_eq!(r.deal_id, "deal_x");
    assert_eq!(r.stage, "term_sheet");
    assert_eq!(r.updated_at, "2025-03-01T00:00:00Z");
    let d = &p.deals()[0];
    assert_eq!(d.stage, "term_sheet");
    assert_eq!(d.notes, "good call");
    assert_eq!(d.created_at, "c");
    assert_eq!(d.updated_at, "2025-03-01T00:00:00Z");
}

#[test]
fn update_without_notes_keeps_notes() {
    let mut p = Pipeline::new();
    let mut i = input("X", None);
    i.notes = Some("keep".into());
    p.create_deal_at("deal_x".into(), "c".into(), "u".into(), i);
    p.update_deal_at(
        DealUpdateInput { deal_id: "deal_x".into(), stage: "contacted".into(), notes: None },
        "n".into(),
    )
    .unwrap();
    assert_eq!(p.deals()[0].notes, "keep");
}

#[test]
fn update_unknown_deal_is_refused() {
    let mut p = Pipeline::new();
    p.create_deal_at("deal_x".into(), "c".into(), "u".into(), input("X", None));
    let r = p.deal_update(DealUpdateInput {
        deal_id: "deal_missing".into(),
        stage: "passed".into(),
        notes: None,
    });
    match r {
        Err(e) => {
            assert_eq!(e, PipelineError::DealNotFound);
            assert_eq!(e.code(), "DEAL_NOT_FOUND");
        }
        Ok(_) => panic!("an unknown deal was updated"),
    }
    assert_eq!(p.deals()[0].stage, "researched");
    assert_eq!(p.deals()[0].updated_at, "u");
}

#[test]
fn pipeline_list_counts() {
    let mut p = Pipeline::new();
    let stages = ["researched", "contacted", "contacted", "closed_won", "passed", "weird"];
    for (k, s) in stages.iter().enumerate() {
        p.create_deal_at(format!("deal_{}", k), "c".into(), "u".into(), input("I", Some(s)));
    }
    let r = p.pipeline_list();
    assert_eq!(r.total_deals, 6);
    assert_eq!(r.active, 4);
    let funnel: Vec<(&str, usize)> = r.funnel.iter().map(|c| (c.stage, c.count)).collect();
    assert_eq!(
        funnel,
        vec![("researched", 1), ("contacted", 2), ("closed_won", 1), ("passed", 1)]
    );
}

#[test]
fn empty_pipeline_list() {
    let p = Pipeline::new();
    let r = p.pipeline_list();
    assert_eq!(r.total_deals, 0);
    assert_eq!(r.active, 0);
    assert!(r.funnel.is_empty());
}

#[test]
fn stage_order_and_closed_stages() {
    let names: Vec<&str> = (0..9).map(pipeline_stage).collect();
    assert_eq!(
        names,
        vec![
            "researched",
            "contacted",
            "meeting_scheduled",
            "meeting_done",
            "term_sheet",
            "due_diligence",
            "closed_won",
            "closed_lost",
            "passed"
        ]
    );
    assert!(is_closed("closed_won") && is_closed("closed_lost") && is_closed("passed"));
    assert!(!is_closed("term_sheet"));
}

#[test]
fn follow_up_rules() {
    let a = follow_up_action("researched", 4).unwrap();
    assert_eq!((a.action, a.urgency), ("Send initial outreach", Urgency::Medium));
    assert!(follow_up_action("researched", 3).is_none());
    assert_eq!(follow_up_action("contacted", 6).unwrap().urgency, Urgency::High);
    assert!(follow_up_action("contacted", 5).is_none());
    assert_eq!(follow_up_action("meeting_scheduled", 0).unwrap().action, "Prepare for meeting");
    assert_eq!(
        follow_up_action("meeting_done", 3).unwrap().action,
        "Send thank you + next steps"
    );
    assert_eq!(follow_up_action("term_sheet", 4).unwrap().urgency, Urgency::Critical);
    assert_eq!(follow_up_action("due_diligence", 8).unwrap().action, "Check on DD progress");
    assert!(follow_up_action("due_diligence", 7).is_none());
    assert!(follow_up_action("closed_won", 100).is_none());
    assert!(follow_up_action("unknown", 100).is_none());
    assert_eq!(Urgency::Critical.name(), "critical");
}

#[test]
fn follow_up_persists_as_days_pass() {
    for days in 4..40 {
        let a = follow_up_action("term_sheet", days).unwrap();
        assert_eq!(a.action, "Review and respond to terms");
    }
}

#[test]
fn elapsed_days_rounds_toward_zero() {
    let day: i64 = 86_400;
    assert_eq!(elapsed_days(Some(3 * day + 5)), 3);
    assert_eq!(elapsed_days(Some(day - 1)), 0);
    assert_eq!(elapsed_days(Some(-(3 * day + 5))), -3);
    assert_eq!(elapsed_days(None), 0);
    assert_eq!(elapsed_days(Some(i64::MAX)), 106_751_991_167_300);
    assert_eq!(elapsed_days(Some(i64::MIN)), -106_751_991_167_300);
}

#[test]
fn follow_ups_are_ordered_by_urgency() {
    let mut p = Pipeline::new();
    let old = "2025-01-01T00:00:00+00:00";
    let entries = [
        ("deal_1", "A", "researched"),
        ("deal_2", "B", "term_sheet"),
        ("deal_3", "C", "contacted"),
        ("deal_4", "D", "closed_won"),
        ("deal_5", "E", "meeting_scheduled"),
        ("deal_6", "F", "term_sheet"),
    ];
    for (id, name, stage) in entries.iter() {
        p.create_deal_at(id.to_string(), old.into(), old.into(), input(name, Some(stage)));
    }
    let (secs, nanos) = instant("2025-01-11T12:00:00+00:00");
    let r = p.follow_ups_at(secs, nanos);
    let got: Vec<(&str, &str, i64)> =
        r.iter().map(|s| (s.deal_id.as_str(), s.urgency.name(), s.days_since_update)).collect();
    assert_eq!(
        got,
        vec![
            ("deal_2", "critical", 10),
            ("deal_6", "critical", 10),
            ("deal_3", "high", 10),
            ("deal_5", "high", 10),
            ("deal_1", "medium", 10),
        ]
    );
}

#[test]
fn follow_ups_read_the_update_time() {
    let mut p = Pipeline::new();
    p.create_deal_at(
        "deal_1".into(),
        "2025-01-01T00:00:00Z".into(),
        "2025-01-09T00:00:00+02:00".into(),
        input("A", Some("meeting_done")),
    );
    // 2 days and 2 hours have passed: not yet more than 2 whole days.
    let (s1, n1) = instant("2025-01-11T00:00:00Z");
    assert!(p.follow_ups_at(s1, n1).is_empty());
    let (s2, n2) = instant("2025-01-12T00:00:00Z");
    let r = p.follow_ups_at(s2, n2);
    assert_eq!(r.len(), 1);
    assert_eq!(r[0].days_since_update, 3);
    // An update time that does not parse counts as 0 days.
    let mut q = Pipeline::new();
    q.create_deal_at("deal_2".into(), "x".into(), "not a time".into(), input("B", Some("meeting_scheduled")));
    let r = q.follow_ups_at(s2, n2);
    assert_eq!(r[0].days_since_update, 0);
    assert_eq!(r[0].action, "Prepare for meeting");
}

#[test]
fn follow_up_suggest_uses_the_clock() {
    let mut p = Pipeline::new();
    p.deal_create(input("A", Some("meeting_scheduled")));
    p.deal_create(input("B", Some("researched")));
    let r = p.follow_up_suggest();
    assert_eq!(r.len(), 1);
    assert_eq!(r[0].investor, "A");
    assert_eq!(r[0].days_since_update, 0);
}

#[test]
fn follow_ups_count_days_far_from_today() {
    let mut p = Pipeline::new();
    p.create_deal_at("deal_f".into(), "x".into(), "2300-01-01T00:00:00Z".into(), input("F", Some("researched")));
    p.create_deal_at("deal_e".into(), "x".into(), "1600-01-01T00:00:00Z".into(), input("E", Some("term_sheet")));
    let (secs, nanos) = instant("2300-01-11T00:00:00Z");
    let r = p.follow_ups_at(secs, nanos);
    assert_eq!(r.len(), 2);
    assert_eq!(r[0].deal_id, "deal_e");
    assert_eq!(r[0].days_since_update, 255_680);
    assert_eq!(r[1].deal_id, "deal_f");
    assert_eq!(r[1].days_since_update, 10);
}

#[test]
fn follow_ups_before_the_update_count_negative_days() {
    let mut p = Pipeline::new();
    p.create_deal_at("deal_m".into(), "x".into(), "2025-01-10T00:00:00Z".into(), input("M", Some("meeting_scheduled")));
    let (secs, nanos) = instant("2025-01-05T12:00:00Z");
    let r = p.follow_ups_at(secs, nanos);
    assert_eq!(r[0].days_since_update, -4);
}

#[test]
fn clock_stamps_are_read_back_by_follow_ups() {
    let mut p = Pipeline::new();
    let r = p.deal_create(input("A", Some("researched")));
    let stamp = chrono::DateTime::parse_from_rfc3339(&p.deals()[0].updated_at).unwrap();
    let later = stamp.timestamp() + 5 * 86_400;
    let s = p.follow_ups_at(later, stamp.timestamp_subsec_nanos());
    assert_eq!(s.len(), 1);
    assert_eq!(s[0].deal_id, r.deal_id);
    assert_eq!(s[0].days_since_update, 5);
    p.deal_update(DealUpdateInput { deal_id: r.deal_id.clone(), stage: "contacted".into(), notes: None })
        .unwrap();
    assert!(chrono::DateTime::parse_from_rfc3339(&p.deals()[0].updated_at).is_ok());
}
