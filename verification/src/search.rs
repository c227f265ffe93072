//! Requests to the live data sources (YC companies, SEC EDGAR, exchange
//! rates) and the filtering of what they answer.
use vstd::prelude::*;

use crate::outside::{spec_to_lowercase, spec_to_uppercase};
use crate::text::{contains_text, has_infix, replace_char, replace_char_spec, text_or};

verus! {

/// A search of Y Combinator companies.
pub struct YcSearchInput {
    pub batch: Option<String>,
    pub industry: Option<String>,
    pub query: Option<String>,
}

/// A search of SEC EDGAR filings.
pub struct SecSearchInput {
    pub query: String,
    pub form_type: Option<String>,
}

/// The text fields of a YC company that a search looks at; a field that the
/// source leaves out or gives as no text is empty.
pub struct YcCompany {
    pub name: String,
    pub one_liner: String,
    pub long_description: String,
    pub industry: String,
}

/// A YC company's searched fields as text.
pub struct YcCompanyView {
    pub name: Seq<char>,
    pub one_liner: Seq<char>,
    pub long_description: Seq<char>,
    pub industry: Seq<char>,
}

impl View for YcCompany {
    type V = YcCompanyView;

    open spec fn view(&self) -> YcCompanyView {
        YcCompanyView {
            name: self.name@,
            one_liner: self.one_liner@,
            long_description: self.long_description@,
            industry: self.industry@,
        }
    }
}

/// At most this many companies come back from a search.
pub const YC_RESULT_LIMIT: usize = 20;

/// The batch searched: the one asked for, else "s24".
pub open spec fn yc_batch_spec(batch: Option<String>) -> Seq<char> {
    text_or(batch, "s24"@)
}

/// Where the companies of a batch are listed.
pub open spec fn yc_batch_url_spec(batch: Seq<char>) -> Seq<char> {
    "https://yc-oss.github.io/api/batches/"@ + batch + ".json"@
}

/// Whether `text` holds `pattern`, both compared in lower case.
pub open spec fn mentions(text: Seq<char>, pattern: Seq<char>) -> bool {
    has_infix(spec_to_lowercase(text), spec_to_lowercase(pattern))
}

/// A company passes the search: its industry mentions the industry asked
/// for, and its name, one-liner or long description mentions the query;
/// a filter not given passes every company.
pub open spec fn yc_matches(c: YcCompanyView, industry: Option<String>, query: Option<String>) -> bool {
    &&& match industry {
        Some(ind) => mentions(c.industry, ind@),
        None => true,
    }
    &&& match query {
        Some(q) => mentions(c.name, q@) || mentions(c.one_liner, q@) || mentions(
            c.long_description,
            q@,
        ),
        None => true,
    }
}

/// The views of a list of companies.
pub open spec fn company_views(cs: Seq<YcCompany>) -> Seq<YcCompanyView> {
    cs.map_values(|c: YcCompany| c@)
}

/// The positions of the first `limit` companies that pass the search, in
/// order: a company is taken when it passes and fewer than `limit` before it
/// were taken.
pub open spec fn first_matches(
    cs: Seq<YcCompanyView>,
    industry: Option<String>,
    query: Option<String>,
    limit: nat,
) -> Seq<int>
    decreases cs.len(),
{
    if cs.len() == 0 {
        Seq::empty()
    } else {
        let rest = first_matches(cs.drop_last(), industry, query, limit);
        if rest.len() < limit && yc_matches(cs.last(), industry, query) {
            rest.push(cs.len() - 1)
        } else {
            rest
        }
    }
}

/// Whether `text` mentions `pattern`, ignoring case.
pub fn mentions_text(text: &str, pattern: &str) -> (r: bool)
    ensures
        r == mentions(text@, pattern@),
{
    let t = text.to_lowercase();
    let p = pattern.to_lowercase();
    contains_text(t.as_str(), p.as_str())
}

impl YcSearchInput {
    /// The batch to search.
    pub fn batch_name(&self) -> (r: String)
        ensures
            r@ == yc_batch_spec(self.batch),
    {
        match &self.batch {
            Some(b) => b.clone(),
            None => String::from_str("s24"),
        }
    }

    /// Whether a company passes this search.
    pub fn matches(&self, c: &YcCompany) -> (r: bool)
        ensures
            r == yc_matches(c@, self.industry, self.query),
    {
        let industry_ok = match &self.industry {
            Some(ind) => mentions_text(c.industry.as_str(), ind.as_str()),
            None => true,
        };
        let query_ok = match &self.query {
            Some(q) => {
                mentions_text(c.name.as_str(), q.as_str()) || mentions_text(
                    c.one_liner.as_str(),
                    q.as_str(),
                ) || mentions_text(c.long_description.as_str(), q.as_str())
            },
            None => true,
        };
        industry_ok && query_ok
    }

    /// The positions of the companies that the search returns: the first
    /// `YC_RESULT_LIMIT` that pass it, in order.
    pub fn select(&self, companies: &Vec<YcCompany>) -> (r: Vec<usize>)
        ensures
            r@.map_values(|i: usize| i as int) == first_matches(
                company_views(companies@),
                self.industry,
                self.query,
                YC_RESULT_LIMIT as nat,
            ),
    {
        let n = companies.len();
        let ghost cs = company_views(companies@);
        let mut r: Vec<usize> = Vec::new();
        for i in 0..n
            invariant
                n == cs.len(),
                cs == company_views(companies@),
                r@.map_values(|k: usize| k as int) == first_matches(
                    cs.take(i as int),
                    self.industry,
                    self.query,
                    YC_RESULT_LIMIT as nat,
                ),
        {
            assert(cs.take(i + 1).drop_last() =~= cs.take(i as int));
            assert(cs.take(i + 1).last() == companies@[i as int]@);
            if r.len() < YC_RESULT_LIMIT && self.matches(&companies[i]) {
                let ghost before = r@;
                r.push(i);
                assert(r@.map_values(|k: usize| k as int) =~= before.map_values(|k: usize| k as int).push(i as int));
            }
        }
        assert(cs.take(n as int) =~= cs);
        r
    }
}

/// The listing address of a YC batch.
pub fn yc_batch_url(batch: &str) -> (r: String)
    ensures
        r@ == yc_batch_url_spec(batch@),
{
    let mut r = String::from_str("https://yc-oss.github.io/api/batches/");
    r.append(batch);
    r.append(".json");
    r
}

/// The EDGAR full-text search address for a query: spaces become "+", and the
/// form type, empty where none is given, filters the forms.
pub open spec fn sec_search_url_spec(query: Seq<char>, form_type: Option<String>) -> Seq<char> {
    "https://efts.sec.gov/LATEST/search-index?q="@ + replace_char_spec(query, ' ', "+"@)
        + "&forms="@ + text_or(form_type, Seq::empty())
        + "&dateRange=custom&startdt=2024-01-01&enddt=2026-12-31"@
}

impl SecSearchInput {
    /// The EDGAR search address for this input.
    pub fn search_url(&self) -> (r: String)
        ensures
            r@ == sec_search_url_spec(self.query@, self.form_type),
    {
        let q = replace_char(self.query.as_str(), ' ', "+");
        let mut r = String::from_str("https://efts.sec.gov/LATEST/search-index?q=");
        r.append(q.as_str());
        r.append("&forms=");
        match &self.form_type {
            Some(f) => r.append(f.as_str()),
            None => {},
        }
        r.append("&dateRange=custom&startdt=2024-01-01&enddt=2026-12-31");
        assert(r@ =~= sec_search_url_spec(self.query@, self.form_type));
        r
    }
}

/// At most this many filings come back from an EDGAR search.
pub const SEC_RESULT_LIMIT: usize = 10;

/// How many of the `available` filings an EDGAR search shows: all of them,
/// up to `SEC_RESULT_LIMIT`.
pub fn sec_hits_shown(available: usize) -> (r: usize)
    ensures
        r == if available < SEC_RESULT_LIMIT {
            available
        } else {
            SEC_RESULT_LIMIT
        },
{
    if available < SEC_RESULT_LIMIT {
        available
    } else {
        SEC_RESULT_LIMIT
    }
}

/// The total of filings an EDGAR search reports: the count the service
/// gives, else 0.
pub fn reported_total(total: Option<u64>) -> (r: u64)
    ensures
        r == match total {
            Some(t) => t,
            None => 0,
        },
{
    match total {
        Some(t) => t,
        None => 0,
    }
}

/// A currency code as the rate service expects it: upper case.
pub fn currency_code(code: &str) -> (r: String)
    ensures
        r@ == spec_to_uppercase(code@),
{
    code.to_uppercase()
}

/// The address of the latest rates from a currency.
pub fn exchange_rate_url(from: &str) -> (r: String)
    ensures
        r@ == "https://open.er-api.com/v6/latest/"@ + spec_to_uppercase(from@),
{
    let code = currency_code(from);
    let mut r = String::from_str("https://open.er-api.com/v6/latest/");
    r.append(code.as_str());
    r
}

/// The message for a target currency that the rates do not list.
pub fn currency_not_found(code: &str) -> (r: String)
    ensures
        r@ == "Currency "@ + code@ + " not found"@,
{
    let mut r = String::from_str("Currency ");
    r.append(code);
    r.append(" not found");
    r
}

} // verus!

verus! {

/// A search returns at most `limit` positions, increasing, each of a company
/// that passes it; and where it returns fewer than `limit`, it returns every
/// company that passes.
pub proof fn lemma_first_matches(
    cs: Seq<YcCompanyView>,
    industry: Option<String>,
    query: Option<String>,
    limit: nat,
)
    ensures
        ({
            let r = first_matches(cs, industry, query, limit);
            &&& r.len() <= limit
            &&& forall|i: int|
                0 <= i < r.len() ==> (#[trigger] r[i]) < cs.len() && yc_matches(
                    cs[r[i]],
                    industry,
                    query,
                )
            &&& forall|i: int, j: int| 0 <= i < j < r.len() ==> #[trigger] r[i] < #[trigger] r[j]
            &&& forall|i: int| 0 <= i < r.len() ==> 0 <= #[trigger] r[i]
            &&& r.len() < limit ==> forall|k: int|
                0 <= k < cs.len() && yc_matches(#[trigger] cs[k], industry, query) ==> r.contains(k)
        }),
    decreases cs.len(),
{
    if cs.len() > 0 {
        let prefix = cs.drop_last();
        lemma_first_matches(prefix, industry, query, limit);
        let rest = first_matches(prefix, industry, query, limit);
        let r = first_matches(cs, industry, query, limit);
        assert forall|i: int| 0 <= i < r.len() implies (#[trigger] r[i]) < cs.len() && yc_matches(
            cs[r[i]],
            industry,
            query,
        ) by {
            if i < rest.len() {
                assert(r[i] == rest[i]);
                assert(cs[r[i]] == prefix[r[i]]);
            }
        }
        if r.len() < limit {
            assert forall|k: int|
                0 <= k < cs.len() && yc_matches(#[trigger] cs[k], industry, query) implies r.contains(k) by {
                if k < cs.len() - 1 {
                    assert(prefix[k] == cs[k]);
                    assert(rest.len() < limit);
                    let j = choose|j: int| 0 <= j < rest.len() && rest[j] == k;
                    assert(r[j] == rest[j]);
                } else {
                    assert(r[r.len() - 1] == k);
                }
            }
        }
    }
}

} // verus!

verus! {

/// What the two filters of a YC search ask of a company: with no filter every
/// company passes; an industry filter passes exactly the companies whose
/// industry mentions it, ignoring case; a keyword passes exactly the
/// companies whose name, one-liner or long description mentions it, ignoring
/// case; with both, a company must pass each.
pub proof fn lemma_yc_filters(c: YcCompanyView, industry: String, query: String)
    ensures
        yc_matches(c, None, None),
        yc_matches(c, Some(industry), None) <==> mentions(c.industry, industry@),
        yc_matches(c, None, Some(query)) <==> (mentions(c.name, query@) || mentions(
            c.one_liner,
            query@,
        ) || mentions(c.long_description, query@)),
        yc_matches(c, Some(industry), Some(query)) <==> (yc_matches(c, Some(industry), None)
            && yc_matches(c, None, Some(query))),
{
}

/// The positions found in the first `j` companies lead the positions found in
/// all of them.
pub proof fn lemma_first_matches_extends(
    cs: Seq<YcCompanyView>,
    industry: Option<String>,
    query: Option<String>,
    limit: nat,
    j: int,
)
    requires
        0 <= j <= cs.len(),
    ensures
        first_matches(cs.take(j), industry, query, limit).is_prefix_of(
            first_matches(cs, industry, query, limit),
        ),
    decreases cs.len(),
{
    if j == cs.len() {
        assert(cs.take(j) =~= cs);
    } else {
        assert(cs.drop_last().take(j) =~= cs.take(j));
        lemma_first_matches_extends(cs.drop_last(), industry, query, limit, j);
    }
}

/// A company whose long description mentions the keyword, ignoring case, is
/// returned by a keyword search whenever fewer than `limit` companies before
/// it were returned.
pub proof fn lemma_description_match_returned(
    cs: Seq<YcCompanyView>,
    query: String,
    limit: nat,
    k: int,
)
    requires
        0 <= k < cs.len(),
        mentions(cs[k].long_description, query@),
        first_matches(cs.take(k), None, Some(query), limit).len() < limit,
    ensures
        first_matches(cs, None, Some(query), limit).contains(k),
{
    let pre = cs.take(k + 1);
    assert(pre.drop_last() =~= cs.take(k));
    assert(pre.last() == cs[k]);
    let found = first_matches(pre, None, Some(query), limit);
    assert(found.last() == k);
    lemma_first_matches_extends(cs, None, Some(query), limit, k + 1);
    let all = first_matches(cs, None, Some(query), limit);
    assert(all[found.len() - 1] == k);
}

} // verus!
