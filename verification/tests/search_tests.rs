use mcp_fundraise::search::{
    currency_code, currency_not_found, exchange_rate_url, mentions_text, reported_total,
    sec_hits_shown, yc_batch_url,
    SecSearchInput, YcCompany, YcSearchInput,
};
use mcp_fundraise::text::{contains_text, replace_char, text_eq};

fn company(name: &str, one_liner: &str, industry: &str) -> YcCompany {
    YcCompany {
        name: name.to_string(),
        one_liner: one_liner.to_string(),
        long_description: String::new(),
        industry: industry.to_string(),
    }
}

#[test]
fn text_utilities() {
    assert!(contains_text("hello world", "lo w"));
    assert!(contains_text("abc", ""));
    assert!(!contains_text("abc", "abcd"));
    assert!(!contains_text("", "a"));
    assert!(contains_text("aaab", "aab"));
    assert!(contains_text("héllo", "él"));
    assert!(text_eq("seed", "seed"));
    assert!(!text_eq("seed", "seeds"));
    assert_eq!(replace_char("a b  c", ' ', "+"), "a+b++c");
    assert_eq!(replace_char("", ' ', "+"), "");
}

#[test]
fn case_insensitive_mentions() {
    assert!(mentions_text("FinTech", "fin"));
    assert!(mentions_text("payments", "PAY"));
    assert!(!mentions_text("B2B", "fintech"));
}

#[test]
fn yc_batch_defaults_to_s24() {
    let i = YcSearchInput { batch: None, industry: None, query: None };
    assert_eq!(i.batch_name(), "s24");
    let i = YcSearchInput { batch: Some("w24".into()), industry: None, query: None };
    assert_eq!(yc_batch_url(&i.batch_name()), "https://yc-oss.github.io/api/batches/w24.json");
}

#[test]
fn yc_filters_by_industry_and_query() {
    let cs = vec![
        company("Acme Pay", "Payments for shops", "Fintech"),
        company("Robo", "Robots", "Industrials"),
        company("Ledger", "Bookkeeping", "Fintech -> Accounting"),
    ];
    let i = YcSearchInput { batch: None, industry: Some("fintech".into()), query: None };
    assert_eq!(i.select(&cs), vec![0, 2]);
    let i = YcSearchInput { batch: None, industry: Some("FINTECH".into()), query: Some("PAYMENTS".into()) };
    assert_eq!(i.select(&cs), vec![0]);
    let i = YcSearchInput { batch: None, industry: None, query: Some("robo".into()) };
    assert_eq!(i.select(&cs), vec![1]);
    let i = YcSearchInput { batch: None, industry: None, query: None };
    assert_eq!(i.select(&cs), vec![0, 1, 2]);
}

#[test]
fn yc_returns_at_most_twenty() {
    let cs: Vec<YcCompany> = (0..30).map(|k| company(&format!("c{}", k), "x", "AI")).collect();
    let i = YcSearchInput { batch: None, industry: Some("ai".into()), query: None };
    let r = i.select(&cs);
    assert_eq!(r, (0..20).collect::<Vec<usize>>());
}

#[test]
fn sec_url_encodes_spaces() {
    let i = SecSearchInput { query: "simple agreement future equity".into(), form_type: Some("D".into()) };
    assert_eq!(
        i.search_url(),
        "https://efts.sec.gov/LATEST/search-index?q=simple+agreement+future+equity&forms=D&dateRange=custom&startdt=2024-01-01&enddt=2026-12-31"
    );
    let i = SecSearchInput { query: "SAFE".into(), form_type: None };
    assert_eq!(
        i.search_url(),
        "https://efts.sec.gov/LATEST/search-index?q=SAFE&forms=&dateRange=custom&startdt=2024-01-01&enddt=2026-12-31"
    );
}

#[test]
fn currency_requests() {
    assert_eq!(currency_code("eur"), "EUR");
    assert_eq!(exchange_rate_url("usd"), "https://open.er-api.com/v6/latest/USD");
    assert_eq!(currency_not_found("XYZ"), "Currency XYZ not found");
}

#[test]
fn sec_results_shown_and_total() {
    assert_eq!(sec_hits_shown(3), 3);
    assert_eq!(sec_hits_shown(10), 10);
    assert_eq!(sec_hits_shown(250), 10);
    assert_eq!(reported_total(Some(42)), 42);
    assert_eq!(reported_total(None), 0);
}
