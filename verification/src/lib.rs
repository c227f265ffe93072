//! Startup fundraising rules: the investor pipeline and its follow-ups, data
//! rooms, benchmarks, valuation multiples, runway, red flags, term sheets and
//! search requests, each with a proved contract.

pub mod compare;
pub mod dataroom;
pub mod follow_up;
pub mod metrics;
pub mod outside;
pub mod pipeline;
pub mod red_flags;
pub mod runway;
pub mod search;
pub mod terms;
pub mod text;
pub mod valuation;
