//! The documents investors expect in a data room, by fundraising stage.
use vstd::prelude::*;

use crate::text::text_eq;

verus! {

/// The stage a data room is prepared for.
pub struct DataRoomInput {
    pub stage: String,
}

/// The texts of a list of static strings.
pub open spec fn texts_of(v: Seq<&'static str>) -> Seq<Seq<char>> {
    v.map_values(|s: &'static str| s@)
}

/// What every data room holds.
pub open spec fn base_documents() -> Seq<Seq<char>> {
    seq![
        "Company formation docs (articles, bylaws)"@,
        "Cap table (fully diluted)"@,
        "Financial statements (P&L, balance sheet, cash flow)"@,
        "Bank statements (last 6 months)"@,
        "Pitch deck"@,
        "Executive summary"@,
    ]
}

/// What a seed round adds.
pub open spec fn seed_documents() -> Seq<Seq<char>> {
    seq![
        "Product demo or screenshots"@,
        "Customer letters of intent"@,
        "Founder backgrounds/CVs"@,
        "IP assignments"@,
        "Any existing contracts"@,
    ]
}

/// What a series A adds.
pub open spec fn series_a_documents() -> Seq<Seq<char>> {
    seq![
        "Monthly financial model (3-year)"@,
        "Cohort analysis"@,
        "Unit economics breakdown"@,
        "Customer contracts (top 10)"@,
        "Employee agreements"@,
        "Option plan and grants"@,
        "Prior round docs (SAFEs, notes)"@,
        "Insurance policies"@,
        "Material contracts"@,
        "Org chart"@,
    ]
}

/// What a series B adds.
pub open spec fn series_b_documents() -> Seq<Seq<char>> {
    seq![
        "Audited financials"@,
        "Revenue recognition policy"@,
        "Sales pipeline detail"@,
        "Customer churn analysis"@,
        "Competitive landscape"@,
        "IP portfolio"@,
        "Compliance certifications"@,
        "Board meeting minutes"@,
        "Key employee retention plans"@,
        "International structure (if any)"@,
    ]
}

/// How far along a stage is, for the data room: 0 pre-seed, 1 seed,
/// 2 series A, and 3 for series B and every stage not named before.
pub open spec fn data_room_tier(stage: Seq<char>) -> nat {
    if stage == "pre-seed"@ || stage == "pre_seed"@ {
        0
    } else if stage == "seed"@ {
        1
    } else if stage == "series_a"@ || stage == "a"@ {
        2
    } else {
        3
    }
}

/// The documents of a data room of the given tier: the base list and the
/// additions of each stage up to it.
pub open spec fn documents_for_tier(tier: nat) -> Seq<Seq<char>> {
    if tier == 0 {
        base_documents()
    } else if tier == 1 {
        base_documents() + seed_documents()
    } else if tier == 2 {
        base_documents() + seed_documents() + series_a_documents()
    } else {
        base_documents() + seed_documents() + series_a_documents() + series_b_documents()
    }
}

/// The data room checklist for a stage.
pub open spec fn checklist_spec(stage: Seq<char>) -> Seq<Seq<char>> {
    documents_for_tier(data_room_tier(stage))
}

fn base_list() -> (v: Vec<&'static str>)
    ensures
        texts_of(v@) == base_documents(),
{
    let v = vec![
        "Company formation docs (articles, bylaws)",
        "Cap table (fully diluted)",
        "Financial statements (P&L, balance sheet, cash flow)",
        "Bank statements (last 6 months)",
        "Pitch deck",
        "Executive summary",
    ];
    assert(texts_of(v@) =~= base_documents());
    v
}

fn seed_list() -> (v: Vec<&'static str>)
    ensures
        texts_of(v@) == seed_documents(),
{
    let v = vec![
        "Product demo or screenshots",
        "Customer letters of intent",
        "Founder backgrounds/CVs",
        "IP assignments",
        "Any existing contracts",
    ];
    assert(texts_of(v@) =~= seed_documents());
    v
}

fn series_a_list() -> (v: Vec<&'static str>)
    ensures
        texts_of(v@) == series_a_documents(),
{
    let v = vec![
        "Monthly financial model (3-year)",
        "Cohort analysis",
        "Unit economics breakdown",
        "Customer contracts (top 10)",
        "Employee agreements",
        "Option plan and grants",
        "Prior round docs (SAFEs, notes)",
        "Insurance policies",
        "Material contracts",
        "Org chart",
    ];
    assert(texts_of(v@) =~= series_a_documents());
    v
}

fn series_b_list() -> (v: Vec<&'static str>)
    ensures
        texts_of(v@) == series_b_documents(),
{
    let v = vec![
        "Audited financials",
        "Revenue recognition policy",
        "Sales pipeline detail",
        "Customer churn analysis",
        "Competitive landscape",
        "IP portfolio",
        "Compliance certifications",
        "Board meeting minutes",
        "Key employee retention plans",
        "International structure (if any)",
    ];
    assert(texts_of(v@) =~= series_b_documents());
    v
}

/// Appends `more` to `docs`.
fn extend(docs: &mut Vec<&'static str>, more: Vec<&'static str>)
    ensures
        texts_of(final(docs)@) == texts_of(old(docs)@) + texts_of(more@),
{
    let mut more = more;
    let ghost a = old(docs)@;
    let ghost b = more@;
    docs.append(&mut more);
    assert(texts_of(docs@) =~= texts_of(a) + texts_of(b));
}

/// The data room tier of a stage.
pub fn stage_tier(stage: &str) -> (t: u8)
    ensures
        t as nat == data_room_tier(stage@),
{
    if text_eq(stage, "pre-seed") || text_eq(stage, "pre_seed") {
        0
    } else if text_eq(stage, "seed") {
        1
    } else if text_eq(stage, "series_a") || text_eq(stage, "a") {
        2
    } else {
        3
    }
}

impl DataRoomInput {
    /// The documents to prepare for the input's stage, in order.
    pub fn checklist(&self) -> (r: Vec<&'static str>)
        ensures
            texts_of(r@) == checklist_spec(self.stage@),
    {
        let tier = stage_tier(self.stage.as_str());
        let mut docs = base_list();
        if tier >= 1 {
            extend(&mut docs, seed_list());
        }
        if tier >= 2 {
            extend(&mut docs, series_a_list());
        }
        if tier >= 3 {
            extend(&mut docs, series_b_list());
        }
        docs
    }
}

} // verus!

verus! {

/// A later stage's data room holds everything an earlier stage's does, in
/// the same order, and more after it.
pub proof fn lemma_checklist_grows(earlier: nat, later: nat)
    requires
        earlier <= later,
    ensures
        documents_for_tier(earlier).is_prefix_of(documents_for_tier(later)),
        earlier < later && later <= 3 ==> documents_for_tier(earlier).len() < documents_for_tier(later).len(),
{
    let a = documents_for_tier(earlier);
    let b = documents_for_tier(later);
    assert(a =~= b.subrange(0, a.len() as int));
}

/// Every checklist opens with the base documents; a stage not named in the
/// rules gets the fullest list.
pub proof fn lemma_checklist_base_first(stage: Seq<char>)
    ensures
        base_documents().is_prefix_of(checklist_spec(stage)),
        data_room_tier(stage) <= 3,
        checklist_spec(stage).is_prefix_of(documents_for_tier(3)),
{
    lemma_checklist_grows(0, data_room_tier(stage));
    lemma_checklist_grows(data_room_tier(stage), 3);
}

} // verus!

verus! {

/// A number that tells the documents of the data room apart: the length of
/// a title and its first two characters.
pub open spec fn document_key(title: Seq<char>) -> int {
    title.len() * 1_000_000 + (title[0] as int) * 1000 + (title[1] as int)
}

/// No document appears twice in the fullest data room.
pub proof fn lemma_documents_distinct()
    ensures
        forall|i: int, j: int|
            0 <= i < j < documents_for_tier(3).len() ==> #[trigger] documents_for_tier(3)[i]
                != #[trigger] documents_for_tier(3)[j],
{
    reveal_strlit("Company formation docs (articles, bylaws)");
    reveal_strlit("Cap table (fully diluted)");
    reveal_strlit("Financial statements (P&L, balance sheet, cash flow)");
    reveal_strlit("Bank statements (last 6 months)");
    reveal_strlit("Pitch deck");
    reveal_strlit("Executive summary");
    reveal_strlit("Product demo or screenshots");
    reveal_strlit("Customer letters of intent");
    reveal_strlit("Founder backgrounds/CVs");
    reveal_strlit("IP assignments");
    reveal_strlit("Any existing contracts");
    reveal_strlit("Monthly financial model (3-year)");
    reveal_strlit("Cohort analysis");
    reveal_strlit("Unit economics breakdown");
    reveal_strlit("Customer contracts (top 10)");
    reveal_strlit("Employee agreements");
    reveal_strlit("Option plan and grants");
    reveal_strlit("Prior round docs (SAFEs, notes)");
    reveal_strlit("Insurance policies");
    reveal_strlit("Material contracts");
    reveal_strlit("Org chart");
    reveal_strlit("Audited financials");
    reveal_strlit("Revenue recognition policy");
    reveal_strlit("Sales pipeline detail");
    reveal_strlit("Customer churn analysis");
    reveal_strlit("Competitive landscape");
    reveal_strlit("IP portfolio");
    reveal_strlit("Compliance certifications");
    reveal_strlit("Board meeting minutes");
    reveal_strlit("Key employee retention plans");
    reveal_strlit("International structure (if any)");
    let all = documents_for_tier(3);
    let keys = all.map_values(|t: Seq<char>| document_key(t));
    assert(document_key("Company formation docs (articles, bylaws)"@) == 41067111);
    assert(document_key("Cap table (fully diluted)"@) == 25067097);
    assert(document_key("Financial statements (P&L, balance sheet, cash flow)"@) == 52070105);
    assert(document_key("Bank statements (last 6 months)"@) == 31066097);
    assert(document_key("Pitch deck"@) == 10080105);
    assert(document_key("Executive summary"@) == 17069120);
    assert(document_key("Product demo or screenshots"@) == 27080114);
    assert(document_key("Customer letters of intent"@) == 26067117);
    assert(document_key("Founder backgrounds/CVs"@) == 23070111);
    assert(document_key("IP assignments"@) == 14073080);
    assert(document_key("Any existing contracts"@) == 22065110);
    assert(document_key("Monthly financial model (3-year)"@) == 32077111);
    assert(document_key("Cohort analysis"@) == 15067111);
    assert(document_key("Unit economics breakdown"@) == 24085110);
    assert(document_key("Customer contracts (top 10)"@) == 27067117);
    assert(document_key("Employee agreements"@) == 19069109);
    assert(document_key("Option plan and grants"@) == 22079112);
    assert(document_key("Prior round docs (SAFEs, notes)"@) == 31080114);
    assert(document_key("Insurance policies"@) == 18073110);
    assert(document_key("Material contracts"@) == 18077097);
    assert(document_key("Org chart"@) == 9079114);
    assert(document_key("Audited financials"@) == 18065117);
    assert(document_key("Revenue recognition policy"@) == 26082101);
    assert(document_key("Sales pipeline detail"@) == 21083097);
    assert(document_key("Customer churn analysis"@) == 23067117);
    assert(document_key("Competitive landscape"@) == 21067111);
    assert(document_key("IP portfolio"@) == 12073080);
    assert(document_key("Compliance certifications"@) == 25067111);
    assert(document_key("Board meeting minutes"@) == 21066111);
    assert(document_key("Key employee retention plans"@) == 28075101);
    assert(document_key("International structure (if any)"@) == 32073110);
    assert(keys =~= seq![41067111, 25067097, 52070105, 31066097, 10080105, 17069120, 27080114, 26067117, 23070111, 14073080, 22065110, 32077111, 15067111, 24085110, 27067117, 19069109, 22079112, 31080114, 18073110, 18077097, 9079114, 18065117, 26082101, 21083097, 23067117, 21067111, 12073080, 25067111, 21066111, 28075101, 32073110]);
    assert forall|i: int, j: int| 0 <= i < j < all.len() implies #[trigger] all[i] != #[trigger] all[j] by {
        assert(keys[i] != keys[j]);
    }
}

/// No document appears twice in any stage's checklist.
pub proof fn lemma_checklist_no_repeats(stage: Seq<char>)
    ensures
        forall|i: int, j: int|
            0 <= i < j < checklist_spec(stage).len() ==> #[trigger] checklist_spec(stage)[i]
                != #[trigger] checklist_spec(stage)[j],
{
    lemma_checklist_base_first(stage);
    lemma_documents_distinct();
    let c = checklist_spec(stage);
    let all = documents_for_tier(3);
    assert forall|i: int, j: int| 0 <= i < j < c.len() implies #[trigger] c[i] != #[trigger] c[j] by {
        assert(c[i] == all[i] && c[j] == all[j]);
    }
}

} // verus!

verus! {

/// The stages of a data room: "pre-seed" and "pre_seed" get the 6 base
/// documents, "seed" 11, "series_a" and "a" 21, and every other stage name
/// the full 31.
pub proof fn lemma_checklist_sizes(stage: Seq<char>)
    ensures
        checklist_spec("pre-seed"@).len() == 6,
        checklist_spec("pre_seed"@).len() == 6,
        checklist_spec("seed"@).len() == 11,
        checklist_spec("series_a"@).len() == 21,
        checklist_spec("a"@).len() == 21,
        stage != "pre-seed"@ && stage != "pre_seed"@ && stage != "seed"@ && stage != "series_a"@
            && stage != "a"@ ==> checklist_spec(stage).len() == 31,
{
    reveal_strlit("pre-seed");
    reveal_strlit("pre_seed");
    reveal_strlit("seed");
    reveal_strlit("series_a");
    reveal_strlit("a");
    assert("pre-seed"@.len() == 8 && "pre_seed"@.len() == 8 && "seed"@.len() == 4);
    assert("series_a"@.len() == 8 && "a"@.len() == 1);
    assert("pre-seed"@ != "pre_seed"@) by {
        assert("pre-seed"@[3] != "pre_seed"@[3]);
    }
    assert("series_a"@ != "pre-seed"@ && "series_a"@ != "pre_seed"@) by {
        assert("series_a"@[0] != "pre-seed"@[0]);
    }
}

} // verus!
