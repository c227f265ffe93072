//! The investor pipeline: deals keyed by id, moved through fundraising
//! stages, counted into a funnel and turned into follow-up suggestions.
use vstd::prelude::*;

use crate::follow_up::{
    append_with_urgency, by_urgency, elapsed_days, follow_up_action, follow_up_rule,
    lemma_rule_only_open_stages, pending_follow_ups, suggestion_views, FollowUpSuggestion,
    Urgency,
};
use crate::outside::{
    is_lower_hex_digit, now_instant, now_stamp, random_uuid_text, seconds_since, spec_rfc3339,
};
use crate::text::{chars_of, text_eq, text_or};

verus! {

/// A new investor to add to the pipeline.
pub struct DealInput {
    pub investor_name: String,
    pub stage: Option<String>,
    pub contact: Option<String>,
    pub notes: Option<String>,
    pub intro_type: Option<String>,
}

/// A stage change for a deal already in the pipeline.
pub struct DealUpdateInput {
    pub deal_id: String,
    pub stage: String,
    pub notes: Option<String>,
}

/// One investor in the pipeline.
pub struct Deal {
    pub id: String,
    pub investor_name: String,
    pub stage: String,
    pub contact: String,
    pub intro_type: String,
    pub notes: String,
    pub created_at: String,
    pub updated_at: String,
}

/// A deal as text values.
pub struct DealView {
    pub id: Seq<char>,
    pub investor_name: Seq<char>,
    pub stage: Seq<char>,
    pub contact: Seq<char>,
    pub intro_type: Seq<char>,
    pub notes: Seq<char>,
    pub created_at: Seq<char>,
    pub updated_at: Seq<char>,
}

impl View for Deal {
    type V = DealView;

    open spec fn view(&self) -> DealView {
        DealView {
            id: self.id@,
            investor_name: self.investor_name@,
            stage: self.stage@,
            contact: self.contact@,
            intro_type: self.intro_type@,
            notes: self.notes@,
            created_at: self.created_at@,
            updated_at: self.updated_at@,
        }
    }
}

impl Deal {
    /// A copy of the deal.
    pub fn duplicate(&self) -> (r: Deal)
        ensures
            r@ == self@,
    {
        Deal {
            id: self.id.clone(),
            investor_name: self.investor_name.clone(),
            stage: self.stage.clone(),
            contact: self.contact.clone(),
            intro_type: self.intro_type.clone(),
            notes: self.notes.clone(),
            created_at: self.created_at.clone(),
            updated_at: self.updated_at.clone(),
        }
    }
}

/// The views of a sequence of deals.
pub open spec fn views_of(deals: Seq<Deal>) -> Seq<DealView> {
    deals.map_values(|d: Deal| d@)
}

/// No two deals share an id.
pub open spec fn ids_distinct(deals: Seq<DealView>) -> bool {
    forall|i: int, j: int|
        0 <= i < deals.len() && 0 <= j < deals.len() && i != j ==> #[trigger] deals[i].id
            != #[trigger] deals[j].id
}

/// Some deal has this id.
pub open spec fn has_deal(deals: Seq<DealView>, id: Seq<char>) -> bool {
    exists|i: int| 0 <= i < deals.len() && #[trigger] deals[i].id == id
}

/// The position of the deal with this id (meaningful where `has_deal`).
pub open spec fn deal_index(deals: Seq<DealView>, id: Seq<char>) -> int {
    choose|i: int| 0 <= i < deals.len() && #[trigger] deals[i].id == id
}

/// The deal with this id, if there is one.
pub open spec fn lookup(deals: Seq<DealView>, id: Seq<char>) -> Option<DealView> {
    if has_deal(deals, id) {
        Some(deals[deal_index(deals, id)])
    } else {
        None
    }
}

/// Storing a deal under its id: it replaces the deal of the same id where
/// there is one, and is added at the end otherwise.
pub open spec fn insert_deal(deals: Seq<DealView>, deal: DealView) -> Seq<DealView> {
    if has_deal(deals, deal.id) {
        deals.update(deal_index(deals, deal.id), deal)
    } else {
        deals.push(deal)
    }
}

/// The deal that a `DealInput` describes: stage "researched", intro type
/// "cold", and empty contact and notes where none are given.
pub open spec fn new_deal(
    id: Seq<char>,
    created_at: Seq<char>,
    updated_at: Seq<char>,
    input: DealInput,
) -> DealView {
    DealView {
        id,
        investor_name: input.investor_name@,
        stage: text_or(input.stage, "researched"@),
        contact: text_or(input.contact, Seq::empty()),
        intro_type: text_or(input.intro_type, "cold"@),
        notes: text_or(input.notes, Seq::empty()),
        created_at,
        updated_at,
    }
}

/// A deal after a stage change at time `now`: new stage, new update time, and
/// new notes where some are given.
pub open spec fn updated_deal(
    deal: DealView,
    stage: Seq<char>,
    notes: Option<String>,
    now: Seq<char>,
) -> DealView {
    DealView {
        stage,
        updated_at: now,
        notes: text_or(notes, deal.notes),
        ..deal
    }
}

/// What creating a deal answers.
pub struct DealCreated {
    pub deal_id: String,
    pub investor: String,
    pub stage: String,
    pub intro_type: String,
}

/// What a successful stage change answers.
pub struct DealUpdated {
    pub deal_id: String,
    pub stage: String,
    pub updated_at: String,
}

/// Why a pipeline request was refused.
#[derive(PartialEq, Eq, Structural, Clone, Copy, Debug)]
pub enum PipelineError {
    /// No deal has the requested id.
    DealNotFound,
}

impl PipelineError {
    /// The error code reported to callers.
    pub fn code(&self) -> (r: &'static str)
        ensures
            r@ == "DEAL_NOT_FOUND"@,
    {
        match self {
            PipelineError::DealNotFound => "DEAL_NOT_FOUND",
        }
    }
}

/// The stages of the funnel, in pipeline order.
pub open spec fn pipeline_stages() -> Seq<Seq<char>> {
    seq![
        "researched"@,
        "contacted"@,
        "meeting_scheduled"@,
        "meeting_done"@,
        "term_sheet"@,
        "due_diligence"@,
        "closed_won"@,
        "closed_lost"@,
        "passed"@,
    ]
}

/// A stage at which a deal is finished: won, lost or passed.
pub open spec fn is_closed_stage(stage: Seq<char>) -> bool {
    stage == "closed_won"@ || stage == "closed_lost"@ || stage == "passed"@
}

/// How many deals are at `stage`.
pub open spec fn count_stage(deals: Seq<DealView>, stage: Seq<char>) -> nat
    decreases deals.len(),
{
    if deals.len() == 0 {
        0
    } else {
        count_stage(deals.drop_last(), stage) + (if deals.last().stage == stage {
            1nat
        } else {
            0nat
        })
    }
}

/// How many deals are not closed.
pub open spec fn count_active(deals: Seq<DealView>) -> nat
    decreases deals.len(),
{
    if deals.len() == 0 {
        0
    } else {
        count_active(deals.drop_last()) + (if is_closed_stage(deals.last().stage) {
            0nat
        } else {
            1nat
        })
    }
}

/// The funnel over `stages`: each stage with its number of deals, in the
/// order of `stages`, leaving out the stages that no deal is at.
pub open spec fn funnel_of(stages: Seq<Seq<char>>, deals: Seq<DealView>) -> Seq<(Seq<char>, nat)>
    decreases stages.len(),
{
    if stages.len() == 0 {
        Seq::empty()
    } else {
        let rest = funnel_of(stages.drop_last(), deals);
        let c = count_stage(deals, stages.last());
        if c > 0 {
            rest.push((stages.last(), c))
        } else {
            rest
        }
    }
}

/// One stage of the funnel.
pub struct StageCount {
    pub stage: &'static str,
    pub count: usize,
}

/// The funnel as (stage, count) pairs.
pub open spec fn funnel_view(funnel: Seq<StageCount>) -> Seq<(Seq<char>, nat)> {
    funnel.map_values(|c: StageCount| (c.stage@, c.count as nat))
}

/// Counts over the whole pipeline.
pub struct PipelineSummary {
    pub total_deals: usize,
    pub active: usize,
    pub funnel: Vec<StageCount>,
}

/// The stage at position `k` of the funnel order.
pub fn pipeline_stage(k: usize) -> (r: &'static str)
    requires
        k < 9,
    ensures
        r@ == pipeline_stages()[k as int],
{
    match k {
        0 => "researched",
        1 => "contacted",
        2 => "meeting_scheduled",
        3 => "meeting_done",
        4 => "term_sheet",
        5 => "due_diligence",
        6 => "closed_won",
        7 => "closed_lost",
        _ => "passed",
    }
}

/// Whether a stage is closed (won, lost or passed).
pub fn is_closed(stage: &str) -> (r: bool)
    ensures
        r == is_closed_stage(stage@),
{
    text_eq(stage, "closed_won") || text_eq(stage, "closed_lost") || text_eq(stage, "passed")
}

/// The investor pipeline: deals in the order they were first stored.
pub struct Pipeline {
    deals: Vec<Deal>,
}

impl View for Pipeline {
    type V = Seq<DealView>;

    closed spec fn view(&self) -> Seq<DealView> {
        views_of(self.deals@)
    }
}

/// The text of deal ids made from a UUID text: "deal_" and its first eight characters.
pub open spec fn deal_id_spec(uuid: Seq<char>) -> Seq<char> {
    "deal_"@ + uuid.subrange(0, 8)
}

/// Builds a deal id from the text of a UUID: "deal_" and its first eight
/// characters, which must be ASCII for the cut to fall between characters.
pub fn deal_id_from(uuid: &str) -> (r: String)
    requires
        uuid@.len() >= 8,
        forall|i: int| 0 <= i < 8 ==> (#[trigger] uuid@[i] as u32) < 128,
    ensures
        r@ == deal_id_spec(uuid@),
{
    let cs = chars_of(uuid);
    let mut r = String::from_str("deal_");
    for i in 0..8
        invariant
            cs@ == uuid@,
            cs@.len() >= 8,
            r@ == "deal_"@ + uuid@.subrange(0, i as int),
    {
        r.push(cs[i]);
        assert(uuid@.subrange(0, i + 1) =~= uuid@.subrange(0, i as int).push(uuid@[i as int]));
    }
    r
}

/// A fresh deal id: "deal_" and the first eight hex digits of a random UUID.
pub fn new_deal_id() -> (r: String)
    ensures
        r@.len() == 13,
        r@.subrange(0, 5) == "deal_"@,
        forall|i: int| 5 <= i < 13 ==> is_lower_hex_digit(#[trigger] r@[i]),
{
    let u = random_uuid_text();
    proof {
        assert forall|i: int| 0 <= i < 8 implies (#[trigger] u@[i] as u32) < 128 by {
            assert(is_lower_hex_digit(u@[i]));
        }
    }
    let r = deal_id_from(u.as_str());
    proof {
        reveal_strlit("deal_");
        assert(r@.subrange(0, 5) =~= "deal_"@);
        assert forall|i: int| 5 <= i < 13 implies is_lower_hex_digit(#[trigger] r@[i]) by {
            assert(r@[i] == u@[i - 5]);
        }
    }
    r
}

impl Pipeline {
    #[verifier::type_invariant]
    spec fn unique_ids(self) -> bool {
        ids_distinct(views_of(self.deals@))
    }

    /// An empty pipeline.
    pub fn new() -> (r: Pipeline)
        ensures
            r@ == Seq::<DealView>::empty(),
            ids_distinct(r@),
    {
        let r = Pipeline { deals: Vec::new() };
        assert(r@ =~= Seq::<DealView>::empty());
        r
    }

    /// The deals, in order.
    pub fn deals(&self) -> (r: &Vec<Deal>)
        ensures
            views_of(r@) == self@,
            ids_distinct(self@),
    {
        proof {
            use_type_invariant(self);
        }
        &self.deals
    }

    /// The position of the deal with this id, if any.
    pub fn position(&self, id: &str) -> (r: Option<usize>)
        ensures
            match r {
                Some(i) => i < self@.len() && self@[i as int].id == id@ && i == deal_index(self@, id@),
                None => !has_deal(self@, id@),
            },
    {
        proof {
            use_type_invariant(self);
        }
        let n = self.deals.len();
        for i in 0..n
            invariant
                n == self.deals@.len(),
                ids_distinct(self@),
                forall|j: int| 0 <= j < i ==> (#[trigger] self@[j]).id != id@,
        {
            if text_eq(self.deals[i].id.as_str(), id) {
                proof {
                    let k = deal_index(self@, id@);
                    assert(self@[i as int].id == id@);
                    assert(0 <= k < self@.len() && self@[k].id == id@);
                    assert(k == i);
                }
                return Some(i);
            }
        }
        None
    }

    /// Stores a deal under its id, replacing the deal of the same id if there is one.
    fn store(&mut self, deal: Deal)
        ensures
            final(self)@ == insert_deal(old(self)@, deal@),
    {
        proof {
            use_type_invariant(&*self);
        }
        let pos = self.position(deal.id.as_str());
        let ghost before = self@;
        let mut deals: Vec<Deal> = Vec::new();
        std::mem::swap(&mut deals, &mut self.deals);
        assert(views_of(deals@) == before);
        match pos {
            Some(i) => {
                deals.set(i, deal);
                assert(views_of(deals@) =~= before.update(i as int, deal@));
            },
            None => {
                deals.push(deal);
                assert(views_of(deals@) =~= before.push(deal@));
            },
        }
        self.deals = deals;
    }

    /// Adds the deal that `input` describes under `id`, created and last
    /// updated at the given times.
    pub fn create_deal_at(
        &mut self,
        id: String,
        created_at: String,
        updated_at: String,
        input: DealInput,
    ) -> (r: DealCreated)
        ensures
            final(self)@ == insert_deal(old(self)@, new_deal(id@, created_at@, updated_at@, input)),
            ids_distinct(final(self)@),
            r.deal_id@ == id@,
            r.investor@ == input.investor_name@,
            r.stage@ == text_or(input.stage, "researched"@),
            r.intro_type@ == text_or(input.intro_type, "cold"@),
    {
        let ghost given = input;
        let DealInput { investor_name, stage, contact, notes, intro_type } = input;
        let stage = match stage {
            Some(s) => s,
            None => String::from_str("researched"),
        };
        let contact = match contact {
            Some(s) => s,
            None => String::new(),
        };
        let intro_type = match intro_type {
            Some(s) => s,
            None => String::from_str("cold"),
        };
        let notes = match notes {
            Some(s) => s,
            None => String::new(),
        };
        let reply = DealCreated {
            deal_id: id.clone(),
            investor: investor_name.clone(),
            stage: stage.clone(),
            intro_type: intro_type.clone(),
        };
        let deal = Deal { id, investor_name, stage, contact, intro_type, notes, created_at, updated_at };
        assert(deal@ == new_deal(deal.id@, deal.created_at@, deal.updated_at@, given));
        self.store(deal);
        proof {
            use_type_invariant(&*self);
        }
        reply
    }

    /// Moves the deal with the requested id to the requested stage, stamping it
    /// with `now` and replacing its notes where new ones are given. Refused
    /// with `DealNotFound`, and nothing changes, where no deal has that id.
    pub fn update_deal_at(&mut self, input: DealUpdateInput, now: String) -> (r: Result<
        DealUpdated,
        PipelineError,
    >)
        ensures
            r is Ok <==> has_deal(old(self)@, input.deal_id@),
            ids_distinct(final(self)@),
            match r {
                Ok(u) => {
                    &&& final(self)@ == old(self)@.update(
                        deal_index(old(self)@, input.deal_id@),
                        updated_deal(
                            old(self)@[deal_index(old(self)@, input.deal_id@)],
                            input.stage@,
                            input.notes,
                            now@,
                        ),
                    )
                    &&& u.deal_id@ == input.deal_id@
                    &&& u.stage@ == input.stage@
                    &&& u.updated_at@ == now@
                },
                Err(e) => e == PipelineError::DealNotFound && final(self)@ == old(self)@,
            },
    {
        proof {
            use_type_invariant(&*self);
        }
        match self.position(input.deal_id.as_str()) {
            None => Err(PipelineError::DealNotFound),
            Some(i) => {
                let ghost given = input;
                let DealUpdateInput { deal_id, stage, notes } = input;
                let old_deal = self.deals[i].duplicate();
                let reply = DealUpdated {
                    deal_id: deal_id,
                    stage: stage.clone(),
                    updated_at: now.clone(),
                };
                let notes = match notes {
                    Some(n) => n,
                    None => old_deal.notes,
                };
                let deal = Deal {
                    id: old_deal.id,
                    investor_name: old_deal.investor_name,
                    stage,
                    contact: old_deal.contact,
                    intro_type: old_deal.intro_type,
                    notes,
                    created_at: old_deal.created_at,
                    updated_at: now,
                };
                assert(deal@ == updated_deal(self@[i as int], given.stage@, given.notes, deal.updated_at@));
                let ghost before = self@;
                let mut deals: Vec<Deal> = Vec::new();
                std::mem::swap(&mut deals, &mut self.deals);
                deals.set(i, deal);
                assert(views_of(deals@) =~= before.update(i as int, deal@));
                proof {
                    assert forall|a: int, b: int|
                        0 <= a < views_of(deals@).len() && 0 <= b < views_of(deals@).len() && a != b
                        implies #[trigger] views_of(deals@)[a].id != #[trigger] views_of(deals@)[b].id by {
                        assert(before[a].id == views_of(deals@)[a].id);
                        assert(before[b].id == views_of(deals@)[b].id);
                    }
                }
                self.deals = deals;
                Ok(reply)
            },
        }
    }

    /// Adds an investor: a fresh "deal_" id, the RFC 3339 texts of two clock
    /// readings as creation and update time, and the defaults of `new_deal`.
    pub fn deal_create(&mut self, input: DealInput) -> (r: DealCreated)
        ensures
            r.deal_id@.len() == 13,
            r.deal_id@.subrange(0, 5) == "deal_"@,
            exists|created_secs: i64, created_nanos: u32, updated_secs: i64, updated_nanos: u32|
                created_secs >= 0 && created_nanos < 1_000_000_000 && updated_secs >= 0
                    && updated_nanos < 1_000_000_000 && final(self)@ == insert_deal(
                    old(self)@,
                    new_deal(
                        r.deal_id@,
                        #[trigger] spec_rfc3339(created_secs, created_nanos),
                        #[trigger] spec_rfc3339(updated_secs, updated_nanos),
                        input,
                    ),
                ),
            ids_distinct(final(self)@),
            r.investor@ == input.investor_name@,
            r.stage@ == text_or(input.stage, "researched"@),
            r.intro_type@ == text_or(input.intro_type, "cold"@),
    {
        let id = new_deal_id();
        let (created_secs, created_nanos, created_at) = now_stamp();
        let (updated_secs, updated_nanos, updated_at) = now_stamp();
        let r = self.create_deal_at(id, created_at, updated_at, input);
        assert(final(self)@ == insert_deal(
            old(self)@,
            new_deal(
                r.deal_id@,
                spec_rfc3339(created_secs, created_nanos),
                spec_rfc3339(updated_secs, updated_nanos),
                input,
            ),
        ));
        r
    }

    /// Moves a deal to a new stage, stamped with the RFC 3339 text of a clock
    /// reading.
    pub fn deal_update(&mut self, input: DealUpdateInput) -> (r: Result<DealUpdated, PipelineError>)
        ensures
            r is Ok <==> has_deal(old(self)@, input.deal_id@),
            ids_distinct(final(self)@),
            match r {
                Ok(u) => {
                    &&& final(self)@ == old(self)@.update(
                        deal_index(old(self)@, input.deal_id@),
                        updated_deal(
                            old(self)@[deal_index(old(self)@, input.deal_id@)],
                            input.stage@,
                            input.notes,
                            u.updated_at@,
                        ),
                    )
                    &&& u.deal_id@ == input.deal_id@
                    &&& u.stage@ == input.stage@
                    &&& exists|secs: i64, nanos: u32|
                        secs >= 0 && nanos < 1_000_000_000 && u.updated_at@ == #[trigger] spec_rfc3339(
                            secs,
                            nanos,
                        )
                },
                Err(e) => e == PipelineError::DealNotFound && final(self)@ == old(self)@,
            },
    {
        let (secs, nanos, now) = now_stamp();
        self.update_deal_at(input, now)
    }

    /// How many deals are at `stage`.
    pub fn count_at_stage(&self, stage: &str) -> (c: usize)
        ensures
            c == count_stage(self@, stage@),
    {
        let n = self.deals.len();
        let mut c: usize = 0;
        for i in 0..n
            invariant
                n == self@.len(),
                c <= i,
                c == count_stage(self@.take(i as int), stage@),
        {
            assert(self@.take(i + 1).drop_last() =~= self@.take(i as int));
            if text_eq(self.deals[i].stage.as_str(), stage) {
                c = c + 1;
            }
        }
        assert(self@.take(n as int) =~= self@);
        c
    }

    /// How many deals are not closed.
    pub fn count_open(&self) -> (c: usize)
        ensures
            c == count_active(self@),
    {
        let n = self.deals.len();
        let mut c: usize = 0;
        for i in 0..n
            invariant
                n == self@.len(),
                c <= i,
                c == count_active(self@.take(i as int)),
        {
            assert(self@.take(i + 1).drop_last() =~= self@.take(i as int));
            if !is_closed(self.deals[i].stage.as_str()) {
                c = c + 1;
            }
        }
        assert(self@.take(n as int) =~= self@);
        c
    }

    /// The pipeline's totals: all deals, the deals not closed, and the funnel
    /// of the stages that some deal is at.
    pub fn pipeline_list(&self) -> (r: PipelineSummary)
        ensures
            r.total_deals == self@.len(),
            r.active == count_active(self@),
            funnel_view(r.funnel@) == funnel_of(pipeline_stages(), self@),
    {
        let mut funnel: Vec<StageCount> = Vec::new();
        for k in 0..9
            invariant
                funnel_view(funnel@) == funnel_of(pipeline_stages().take(k as int), self@),
        {
            let stage = pipeline_stage(k);
            let count = self.count_at_stage(stage);
            assert(pipeline_stages().take(k + 1).drop_last() =~= pipeline_stages().take(k as int));
            if count > 0 {
                funnel.push(StageCount { stage, count });
            }
            assert(funnel_view(funnel@) =~= funnel_of(pipeline_stages().take(k + 1), self@));
        }
        assert(pipeline_stages().take(9) =~= pipeline_stages());
        PipelineSummary { total_deals: self.deals.len(), active: self.count_open(), funnel }
    }

    /// The follow-ups owed at the instant `now_secs` seconds and `now_nanos`
    /// nanoseconds after the Unix epoch, ordered by urgency, critical first,
    /// deals of equal urgency in pipeline order.
    pub fn follow_ups_at(&self, now_secs: i64, now_nanos: u32) -> (r: Vec<FollowUpSuggestion>)
        ensures
            suggestion_views(r@) == by_urgency(pending_follow_ups(self@, now_secs, now_nanos)),
    {
        let n = self.deals.len();
        let mut pending: Vec<FollowUpSuggestion> = Vec::new();
        for i in 0..n
            invariant
                n == self@.len(),
                suggestion_views(pending@) == pending_follow_ups(self@.take(i as int), now_secs, now_nanos),
        {
            assert(self@.take(i + 1).drop_last() =~= self@.take(i as int));
            let d = &self.deals[i];
            let elapsed = seconds_since(now_secs, now_nanos, d.updated_at.as_str());
            let days = elapsed_days(elapsed);
            match follow_up_action(d.stage.as_str(), days) {
                Some(a) => {
                    pending.push(
                        FollowUpSuggestion {
                            investor: d.investor_name.clone(),
                            deal_id: d.id.clone(),
                            stage: d.stage.clone(),
                            days_since_update: days,
                            action: a.action,
                            urgency: a.urgency,
                        },
                    );
                    assert(suggestion_views(pending@) =~= pending_follow_ups(
                        self@.take(i + 1),
                        now_secs,
                        now_nanos,
                    ));
                },
                None => {},
            }
        }
        assert(self@.take(n as int) =~= self@);
        let mut out: Vec<FollowUpSuggestion> = Vec::new();
        append_with_urgency(&mut out, &pending, Urgency::Critical);
        append_with_urgency(&mut out, &pending, Urgency::High);
        append_with_urgency(&mut out, &pending, Urgency::Medium);
        assert(suggestion_views(out@) =~= by_urgency(suggestion_views(pending@)));
        out
    }

    /// The follow-ups owed now, by the system clock: those of `follow_ups_at`
    /// at the instant the clock reads.
    pub fn follow_up_suggest(&self) -> (r: Vec<FollowUpSuggestion>)
        ensures
            exists|now_secs: i64, now_nanos: u32|
                now_secs >= 0 && now_nanos < 1_000_000_000 && suggestion_views(r@) == by_urgency(
                    pending_follow_ups(self@, now_secs, now_nanos),
                ),
    {
        let (now_secs, now_nanos) = now_instant();
        self.follow_ups_at(now_secs, now_nanos)
    }
}

} // verus!

verus! {

/// Where ids are distinct, the deal that holds an id is the one that
/// `deal_index` finds.
pub proof fn lemma_index_unique(deals: Seq<DealView>, id: Seq<char>, i: int)
    requires
        ids_distinct(deals),
        0 <= i < deals.len(),
        deals[i].id == id,
    ensures
        has_deal(deals, id),
        deal_index(deals, id) == i,
        lookup(deals, id) == Some(deals[i]),
{
    assert(has_deal(deals, id));
    let k = deal_index(deals, id);
    assert(deals[k].id == id);
}

/// A deal that is stored can be looked up by its id and reads back as it was
/// stored; the deals of every other id are untouched, and ids stay distinct.
pub proof fn lemma_stored_deal_found(deals: Seq<DealView>, deal: DealView)
    requires
        ids_distinct(deals),
    ensures
        ids_distinct(insert_deal(deals, deal)),
        lookup(insert_deal(deals, deal), deal.id) == Some(deal),
        forall|other: Seq<char>|
            other != deal.id ==> #[trigger] lookup(insert_deal(deals, deal), other) == lookup(
                deals,
                other,
            ),
        insert_deal(deals, deal).len() == if has_deal(deals, deal.id) {
            deals.len()
        } else {
            deals.len() + 1
        },
{
    let after = insert_deal(deals, deal);
    let k = if has_deal(deals, deal.id) {
        deal_index(deals, deal.id)
    } else {
        deals.len() as int
    };
    assert(0 <= k < after.len() && after[k] == deal);
    assert forall|i: int, j: int|
        0 <= i < after.len() && 0 <= j < after.len() && i != j implies #[trigger] after[i].id
        != #[trigger] after[j].id by {
        if i != k && j != k {
            assert(after[i] == deals[i] && after[j] == deals[j]);
        } else if i == k {
            assert(after[j] == deals[j]);
        } else {
            assert(after[i] == deals[i]);
        }
    }
    lemma_index_unique(after, deal.id, k);
    assert forall|other: Seq<char>| other != deal.id implies #[trigger] lookup(after, other)
        == lookup(deals, other) by {
        if has_deal(deals, other) {
            let j = deal_index(deals, other);
            assert(j != k);
            assert(after[j] == deals[j]);
            lemma_index_unique(after, other, j);
        } else if has_deal(after, other) {
            let j = deal_index(after, other);
            assert(j != k);
            assert(after[j] == deals[j]);
            assert(false);
        }
    }
}

/// After a stage change of a deal that exists, that deal reads back with the
/// new stage, the new update time and (where given) the new notes, keeping
/// its id, investor, contact, intro type and creation time; every other
/// deal is untouched, the number of deals stays, and ids stay distinct.
pub proof fn lemma_updated_deal_found(
    deals: Seq<DealView>,
    id: Seq<char>,
    stage: Seq<char>,
    notes: Option<String>,
    now: Seq<char>,
)
    requires
        ids_distinct(deals),
        has_deal(deals, id),
    ensures
        ({
            let k = deal_index(deals, id);
            let after = deals.update(k, updated_deal(deals[k], stage, notes, now));
            &&& ids_distinct(after)
            &&& after.len() == deals.len()
            &&& lookup(after, id) == Some(updated_deal(lookup(deals, id)->0, stage, notes, now))
            &&& lookup(after, id)->0.stage == stage
            &&& lookup(after, id)->0.updated_at == now
            &&& lookup(after, id)->0.id == id
            &&& lookup(after, id)->0.investor_name == lookup(deals, id)->0.investor_name
            &&& lookup(after, id)->0.created_at == lookup(deals, id)->0.created_at
            &&& forall|other: Seq<char>|
                other != id ==> #[trigger] lookup(after, other) == lookup(deals, other)
        }),
{
    let k = deal_index(deals, id);
    let d = updated_deal(deals[k], stage, notes, now);
    assert(d.id == id);
    lemma_index_unique(deals, id, k);
    assert(insert_deal(deals, d) == deals.update(k, d));
    lemma_stored_deal_found(deals, d);
}

/// Every deal is either active or at one of the three closed stages.
pub proof fn lemma_active_plus_closed(deals: Seq<DealView>)
    ensures
        count_active(deals) + count_stage(deals, "closed_won"@) + count_stage(deals, "closed_lost"@)
            + count_stage(deals, "passed"@) == deals.len(),
    decreases deals.len(),
{
    reveal_strlit("closed_won");
    reveal_strlit("closed_lost");
    reveal_strlit("passed");
    if deals.len() > 0 {
        lemma_active_plus_closed(deals.drop_last());
        let st = deals.last().stage;
        if st == "closed_won"@ {
            assert(st != "closed_lost"@ && st != "passed"@) by {
                assert(st[7] != "closed_lost"@[7]);
                assert(st.len() != "passed"@.len());
            }
        } else if st == "closed_lost"@ {
            assert(st != "passed"@) by {
                assert(st.len() != "passed"@.len());
            }
        }
    }
}

/// Every stage in the funnel has at least one deal, and its count is the
/// number of deals at that stage; the funnel lists no more stages than it
/// was given.
pub proof fn lemma_funnel_counts(stages: Seq<Seq<char>>, deals: Seq<DealView>)
    ensures
        funnel_of(stages, deals).len() <= stages.len(),
        forall|i: int|
            0 <= i < funnel_of(stages, deals).len() ==> {
                let (st, c) = #[trigger] funnel_of(stages, deals)[i];
                c > 0 && c == count_stage(deals, st) && stages.contains(st)
            },
    decreases stages.len(),
{
    if stages.len() > 0 {
        lemma_funnel_counts(stages.drop_last(), deals);
        let rest = funnel_of(stages.drop_last(), deals);
        assert forall|i: int| 0 <= i < funnel_of(stages, deals).len() implies {
            let (st, c) = #[trigger] funnel_of(stages, deals)[i];
            c > 0 && c == count_stage(deals, st) && stages.contains(st)
        } by {
            if i < rest.len() {
                let st = rest[i].0;
                assert(funnel_of(stages, deals)[i] == rest[i]);
                assert(stages.drop_last().contains(st));
                let j = choose|j: int| 0 <= j < stages.drop_last().len() && stages.drop_last()[j] == st;
                assert(stages[j] == st);
            } else {
                assert(stages[stages.len() - 1] == stages.last());
            }
        }
    }
}

/// Every follow-up owed is for a deal in the pipeline that is not closed,
/// and carries the action and urgency that the rule gives for its stage and
/// the days since the deal's last update.
pub proof fn lemma_follow_ups_for_open_deals(deals: Seq<DealView>, now_secs: i64, now_nanos: u32)
    ensures
        forall|i: int|
            0 <= i < pending_follow_ups(deals, now_secs, now_nanos).len() ==> {
                let x = #[trigger] pending_follow_ups(deals, now_secs, now_nanos)[i];
                &&& !is_closed_stage(x.stage)
                &&& has_deal(deals, x.deal_id)
                &&& follow_up_rule(x.stage, x.days) == Some((x.action, x.urgency))
            },
    decreases deals.len(),
{
    reveal_strlit("closed_won");
    reveal_strlit("closed_lost");
    reveal_strlit("passed");
    reveal_strlit("researched");
    reveal_strlit("contacted");
    reveal_strlit("meeting_scheduled");
    reveal_strlit("meeting_done");
    reveal_strlit("term_sheet");
    reveal_strlit("due_diligence");
    if deals.len() > 0 {
        lemma_follow_ups_for_open_deals(deals.drop_last(), now_secs, now_nanos);
        let rest = pending_follow_ups(deals.drop_last(), now_secs, now_nanos);
        let all = pending_follow_ups(deals, now_secs, now_nanos);
        assert forall|i: int| 0 <= i < all.len() implies {
            let x = #[trigger] all[i];
            &&& !is_closed_stage(x.stage)
            &&& has_deal(deals, x.deal_id)
            &&& follow_up_rule(x.stage, x.days) == Some((x.action, x.urgency))
        } by {
            let x = all[i];
            if i < rest.len() {
                assert(x == rest[i]);
                let j = choose|j: int| 0 <= j < deals.drop_last().len() && #[trigger] deals.drop_last()[j].id == x.deal_id;
                assert(deals[j].id == x.deal_id);
            } else {
                assert(deals[deals.len() - 1].id == x.deal_id);
                lemma_rule_only_open_stages(x.stage, x.days);
            }
        }
    }
}

} // verus!
