//! Follow-ups on deals: which action each stage calls for after how many
//! days, and the order in which they are listed.
use vstd::prelude::*;

use crate::outside::spec_seconds_since;
use crate::pipeline::{is_closed_stage, DealView};
use crate::text::text_eq;

verus! {

/// How urgent a follow-up is.
#[derive(PartialEq, Eq, Structural, Clone, Copy, Debug)]
pub enum Urgency {
    Critical,
    High,
    Medium,
}

impl Urgency {
    /// Position in the order in which follow-ups are listed: critical first.
    pub open spec fn rank(self) -> int {
        match self {
            Urgency::Critical => 0,
            Urgency::High => 1,
            Urgency::Medium => 2,
        }
    }

    /// The urgency's name.
    pub fn name(&self) -> (r: &'static str)
        ensures
            r@ == match *self {
                Urgency::Critical => "critical"@,
                Urgency::High => "high"@,
                Urgency::Medium => "medium"@,
            },
    {
        match self {
            Urgency::Critical => "critical",
            Urgency::High => "high",
            Urgency::Medium => "medium",
        }
    }
}

/// The follow-up owed for a deal at `stage` that was last updated `days`
/// whole days ago, as (action, urgency); none for closed or unknown stages
/// and for deals that were touched recently enough.
pub open spec fn follow_up_rule(stage: Seq<char>, days: int) -> Option<(Seq<char>, Urgency)> {
    if stage == "researched"@ {
        if days > 3 { Some(("Send initial outreach"@, Urgency::Medium)) } else { None }
    } else if stage == "contacted"@ {
        if days > 5 { Some(("Follow up on initial outreach"@, Urgency::High)) } else { None }
    } else if stage == "meeting_scheduled"@ {
        Some(("Prepare for meeting"@, Urgency::High))
    } else if stage == "meeting_done"@ {
        if days > 2 { Some(("Send thank you + next steps"@, Urgency::High)) } else { None }
    } else if stage == "term_sheet"@ {
        if days > 3 { Some(("Review and respond to terms"@, Urgency::Critical)) } else { None }
    } else if stage == "due_diligence"@ {
        if days > 7 { Some(("Check on DD progress"@, Urgency::Medium)) } else { None }
    } else {
        None
    }
}

/// An action to take on a deal.
pub struct FollowUpAction {
    pub action: &'static str,
    pub urgency: Urgency,
}

/// The follow-up for a deal at `stage` last updated `days` days ago.
pub fn follow_up_action(stage: &str, days: i64) -> (r: Option<FollowUpAction>)
    ensures
        match r {
            Some(a) => follow_up_rule(stage@, days as int) == Some((a.action@, a.urgency)),
            None => follow_up_rule(stage@, days as int) is None,
        },
{
    if text_eq(stage, "researched") {
        if days > 3 {
            Some(FollowUpAction { action: "Send initial outreach", urgency: Urgency::Medium })
        } else {
            None
        }
    } else if text_eq(stage, "contacted") {
        if days > 5 {
            Some(FollowUpAction { action: "Follow up on initial outreach", urgency: Urgency::High })
        } else {
            None
        }
    } else if text_eq(stage, "meeting_scheduled") {
        Some(FollowUpAction { action: "Prepare for meeting", urgency: Urgency::High })
    } else if text_eq(stage, "meeting_done") {
        if days > 2 {
            Some(FollowUpAction { action: "Send thank you + next steps", urgency: Urgency::High })
        } else {
            None
        }
    } else if text_eq(stage, "term_sheet") {
        if days > 3 {
            Some(FollowUpAction { action: "Review and respond to terms", urgency: Urgency::Critical })
        } else {
            None
        }
    } else if text_eq(stage, "due_diligence") {
        if days > 7 {
            Some(FollowUpAction { action: "Check on DD progress", urgency: Urgency::Medium })
        } else {
            None
        }
    } else {
        None
    }
}

/// Seconds in a day.
pub open spec fn seconds_per_day() -> int {
    86_400
}

/// Division that rounds toward zero.
pub open spec fn div_toward_zero(x: int, d: int) -> int {
    if x >= 0 {
        x / d
    } else {
        -((-x) / d)
    }
}

/// The whole days in an elapsed time of `elapsed` seconds, rounded toward
/// zero as `TimeDelta::num_days` rounds them (its whole behaviour is
/// `num_seconds() / 86400` in integer division); 0 where the time is unknown.
pub open spec fn elapsed_days_spec(elapsed: Option<i64>) -> int {
    match elapsed {
        Some(s) => div_toward_zero(s as int, seconds_per_day()),
        None => 0,
    }
}

/// The whole days in an elapsed time of `elapsed` seconds, rounded toward
/// zero; 0 where the time is unknown.
pub fn elapsed_days(elapsed: Option<i64>) -> (d: i64)
    ensures
        d == elapsed_days_spec(elapsed),
{
    match elapsed {
        Some(s) => {
            if s >= 0 {
                ((s as u64) / 86_400u64) as i64
            } else {
                let m: u64 = (0i128 - s as i128) as u64;
                let q: u64 = m / 86_400u64;
                assert(q <= 0x8000_0000_0000_0000u64 / 86_400u64);
                0 - (q as i64)
            }
        },
        None => 0,
    }
}

/// A follow-up suggested for one deal.
pub struct FollowUpSuggestion {
    pub investor: String,
    pub deal_id: String,
    pub stage: String,
    pub days_since_update: i64,
    pub action: &'static str,
    pub urgency: Urgency,
}

/// A follow-up suggestion as plain values.
pub struct FollowUpView {
    pub investor: Seq<char>,
    pub deal_id: Seq<char>,
    pub stage: Seq<char>,
    pub days: int,
    pub action: Seq<char>,
    pub urgency: Urgency,
}

impl View for FollowUpSuggestion {
    type V = FollowUpView;

    open spec fn view(&self) -> FollowUpView {
        FollowUpView {
            investor: self.investor@,
            deal_id: self.deal_id@,
            stage: self.stage@,
            days: self.days_since_update as int,
            action: self.action@,
            urgency: self.urgency,
        }
    }
}

impl FollowUpSuggestion {
    /// A copy of the suggestion.
    pub fn duplicate(&self) -> (r: FollowUpSuggestion)
        ensures
            r@ == self@,
    {
        FollowUpSuggestion {
            investor: self.investor.clone(),
            deal_id: self.deal_id.clone(),
            stage: self.stage.clone(),
            days_since_update: self.days_since_update,
            action: self.action,
            urgency: self.urgency,
        }
    }
}

/// The views of a sequence of suggestions.
pub open spec fn suggestion_views(s: Seq<FollowUpSuggestion>) -> Seq<FollowUpView> {
    s.map_values(|x: FollowUpSuggestion| x@)
}

/// The follow-ups owed on `deals` at the instant `now_secs` seconds and
/// `now_nanos` nanoseconds after the Unix epoch, in the order of the deals.
/// A deal's days since update are the whole days from its update time to that
/// instant; 0 where its update time does not parse.
pub open spec fn pending_follow_ups(deals: Seq<DealView>, now_secs: i64, now_nanos: u32) -> Seq<FollowUpView>
    decreases deals.len(),
{
    if deals.len() == 0 {
        Seq::empty()
    } else {
        let rest = pending_follow_ups(deals.drop_last(), now_secs, now_nanos);
        let d = deals.last();
        let days = elapsed_days_spec(spec_seconds_since(now_secs, now_nanos, d.updated_at));
        match follow_up_rule(d.stage, days) {
            Some((action, urgency)) => rest.push(
                FollowUpView {
                    investor: d.investor_name,
                    deal_id: d.id,
                    stage: d.stage,
                    days,
                    action,
                    urgency,
                },
            ),
            None => rest,
        }
    }
}

/// The suggestions of urgency `u`, in their order.
pub open spec fn with_urgency(s: Seq<FollowUpView>, u: Urgency) -> Seq<FollowUpView>
    decreases s.len(),
{
    if s.len() == 0 {
        Seq::empty()
    } else if s.last().urgency == u {
        with_urgency(s.drop_last(), u).push(s.last())
    } else {
        with_urgency(s.drop_last(), u)
    }
}

/// The suggestions ordered by urgency, critical first, keeping the order of
/// suggestions of equal urgency.
pub open spec fn by_urgency(s: Seq<FollowUpView>) -> Seq<FollowUpView> {
    with_urgency(s, Urgency::Critical) + with_urgency(s, Urgency::High) + with_urgency(
        s,
        Urgency::Medium,
    )
}

/// Appends to `out` the suggestions of `from` that have urgency `u`.
pub(crate) fn append_with_urgency(out: &mut Vec<FollowUpSuggestion>, from: &Vec<FollowUpSuggestion>, u: Urgency)
    ensures
        suggestion_views(final(out)@) == suggestion_views(old(out)@) + with_urgency(
            suggestion_views(from@),
            u,
        ),
{
    let n = from.len();
    let ghost start = suggestion_views(out@);
    for i in 0..n
        invariant
            n == from@.len(),
            suggestion_views(out@) == start + with_urgency(
                suggestion_views(from@).take(i as int),
                u,
            ),
    {
        assert(suggestion_views(from@).take(i + 1).drop_last() =~= suggestion_views(from@).take(
            i as int,
        ));
        assert(suggestion_views(from@).take(i + 1).last() == from@[i as int]@);
        if from[i].urgency == u {
            let ghost prev = suggestion_views(out@);
            out.push(from[i].duplicate());
            assert(suggestion_views(out@) =~= prev.push(from@[i as int]@));
            assert(suggestion_views(out@) =~= start + with_urgency(
                suggestion_views(from@).take(i + 1),
                u,
            ));
        } else {
            assert(suggestion_views(out@) =~= start + with_urgency(
                suggestion_views(from@).take(i + 1),
                u,
            ));
        }
    }
    assert(suggestion_views(from@).take(n as int) =~= suggestion_views(from@));
}

} // verus!

verus! {

/// Every suggestion of `with_urgency(s, u)` has urgency `u`, and there are
/// no more of them than in `s`.
pub proof fn lemma_with_urgency_members(s: Seq<FollowUpView>, u: Urgency)
    ensures
        forall|i: int|
            0 <= i < with_urgency(s, u).len() ==> (#[trigger] with_urgency(s, u)[i]).urgency == u,
        with_urgency(s, u).len() <= s.len(),
    decreases s.len(),
{
    if s.len() > 0 {
        lemma_with_urgency_members(s.drop_last(), u);
    }
}

/// Splitting suggestions by urgency loses and adds none: the three groups
/// together hold the same suggestions as `s`, counted with multiplicity.
pub proof fn lemma_urgency_partition(s: Seq<FollowUpView>)
    ensures
        with_urgency(s, Urgency::Critical).to_multiset().add(
            with_urgency(s, Urgency::High).to_multiset(),
        ).add(with_urgency(s, Urgency::Medium).to_multiset()) =~= s.to_multiset(),
    decreases s.len(),
{
    broadcast use vstd::seq_lib::group_to_multiset_ensures;
    broadcast use vstd::multiset::group_multiset_axioms;

    if s.len() == 0 {
        assert(with_urgency(s, Urgency::Critical) =~= Seq::<FollowUpView>::empty());
        assert(with_urgency(s, Urgency::High) =~= Seq::<FollowUpView>::empty());
        assert(with_urgency(s, Urgency::Medium) =~= Seq::<FollowUpView>::empty());
    } else {
        lemma_urgency_partition(s.drop_last());
        assert(s.drop_last().push(s.last()) =~= s);
    }
}

/// The follow-up list is ordered by urgency, critical first, and is a
/// reordering of the follow-ups owed: none is lost, none added.
pub proof fn lemma_follow_ups_ordered(s: Seq<FollowUpView>)
    ensures
        forall|i: int, j: int|
            0 <= i < j < by_urgency(s).len() ==> (#[trigger] by_urgency(s)[i]).urgency.rank() <= (
            #[trigger] by_urgency(s)[j]).urgency.rank(),
        by_urgency(s).to_multiset() =~= s.to_multiset(),
{
    broadcast use vstd::seq_lib::lemma_multiset_commutative;

    let c = with_urgency(s, Urgency::Critical);
    let h = with_urgency(s, Urgency::High);
    let m = with_urgency(s, Urgency::Medium);
    lemma_with_urgency_members(s, Urgency::Critical);
    lemma_with_urgency_members(s, Urgency::High);
    lemma_with_urgency_members(s, Urgency::Medium);
    let r = by_urgency(s);
    assert forall|i: int| 0 <= i < r.len() implies {
        &&& i < c.len() ==> (#[trigger] r[i]).urgency == Urgency::Critical
        &&& c.len() <= i < c.len() + h.len() ==> r[i].urgency == Urgency::High
        &&& c.len() + h.len() <= i ==> r[i].urgency == Urgency::Medium
    } by {
        if i < c.len() {
            assert(r[i] == c[i]);
        } else if i < c.len() + h.len() {
            assert(r[i] == h[i - c.len()]);
        } else {
            assert(r[i] == m[i - c.len() - h.len()]);
        }
    }
    lemma_urgency_partition(s);
    assert((c + h).to_multiset() =~= c.to_multiset().add(h.to_multiset()));
    assert(r.to_multiset() =~= (c + h).to_multiset().add(m.to_multiset()));
}

/// No follow-up is owed on a closed deal.
pub proof fn lemma_rule_only_open_stages(stage: Seq<char>, days: int)
    ensures
        is_closed_stage(stage) ==> follow_up_rule(stage, days) is None,
{
    reveal_strlit("closed_won");
    reveal_strlit("closed_lost");
    reveal_strlit("passed");
    reveal_strlit("researched");
    reveal_strlit("contacted");
    reveal_strlit("meeting_scheduled");
    reveal_strlit("meeting_done");
    reveal_strlit("term_sheet");
    reveal_strlit("due_diligence");
    assert("researched"@.len() == 10 && "contacted"@.len() == 9);
    assert("meeting_scheduled"@.len() == 17 && "meeting_done"@.len() == 12);
    assert("term_sheet"@.len() == 10 && "due_diligence"@.len() == 13);
    assert("closed_won"@.len() == 10 && "closed_lost"@.len() == 11 && "passed"@.len() == 6);
    if stage == "closed_won"@ {
        assert(stage[0] == 'c');
        assert(stage != "researched"@) by {
            assert("researched"@[0] == 'r');
        }
        assert(stage != "term_sheet"@) by {
            assert("term_sheet"@[0] == 't');
        }
    }
}

/// Once a follow-up is owed on a deal, it stays owed, the same one, as more
/// days pass without an update.
pub proof fn lemma_follow_up_persists(stage: Seq<char>, days: int, later: int)
    requires
        days <= later,
        follow_up_rule(stage, days) is Some,
    ensures
        follow_up_rule(stage, later) == follow_up_rule(stage, days),
{
}

} // verus!

verus! {

/// The follow-up owed at each open stage, for every number of whole days
/// since the last update: "researched" after more than 3 days, outreach at
/// medium urgency; "contacted" after more than 5, a follow-up at high;
/// "meeting_scheduled" always, preparation at high; "meeting_done" after more
/// than 2, thanks and next steps at high; "term_sheet" after more than 3, a
/// response at critical; "due_diligence" after more than 7, a progress check at
/// medium.
pub proof fn lemma_follow_up_table(days: int)
    ensures
        follow_up_rule("researched"@, days) == if days > 3 {
            Some(("Send initial outreach"@, Urgency::Medium))
        } else {
            None
        },
        follow_up_rule("contacted"@, days) == if days > 5 {
            Some(("Follow up on initial outreach"@, Urgency::High))
        } else {
            None
        },
        follow_up_rule("meeting_scheduled"@, days) == Some(("Prepare for meeting"@, Urgency::High)),
        follow_up_rule("meeting_done"@, days) == if days > 2 {
            Some(("Send thank you + next steps"@, Urgency::High))
        } else {
            None
        },
        follow_up_rule("term_sheet"@, days) == if days > 3 {
            Some(("Review and respond to terms"@, Urgency::Critical))
        } else {
            None
        },
        follow_up_rule("due_diligence"@, days) == if days > 7 {
            Some(("Check on DD progress"@, Urgency::Medium))
        } else {
            None
        },
{
    reveal_strlit("researched");
    reveal_strlit("contacted");
    reveal_strlit("meeting_scheduled");
    reveal_strlit("meeting_done");
    reveal_strlit("term_sheet");
    reveal_strlit("due_diligence");
    assert("researched"@.len() == 10 && "contacted"@.len() == 9);
    assert("meeting_scheduled"@.len() == 17 && "meeting_done"@.len() == 12);
    assert("term_sheet"@.len() == 10 && "due_diligence"@.len() == 13);
    assert("term_sheet"@ != "researched"@) by {
        assert("term_sheet"@[0] != "researched"@[0]);
    }
}

} // verus!
