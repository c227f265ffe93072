# mcp-fundraise

Startup fundraising intelligence served over MCP: SAFE conversion, dilution,
valuation, runway, projections, metric benchmarks, red flags, data-room
checklists, term-sheet comparison, YC / SEC / exchange-rate lookups and an
investor pipeline.

## Layout

- `src/` — the verified library (Verus). The rules below are stated in
  `requires`/`ensures` and proved; the floating-point computations (SAFE
  conversion, dilution, projections, the runway burn-down, the figures of
  valuations and term sheets) are not, and live in `app/`:
  - `pipeline.rs` — the deal store (ids kept distinct by a type invariant),
    creating and updating deals, the funnel and active counts, and the laws
    on reading back what was stored.
  - `follow_up.rs` — which follow-up each stage calls for after how many days,
    whole days between two instants, and the urgency ordering.
  - `dataroom.rs` — stage-appropriate data-room checklists.
  - `metrics.rs`, `valuation.rs`, `runway.rs`, `red_flags.rs`, `terms.rs` —
    benchmark tables, multiples, runway status and zero-cash month, and flags. Floating-point figures stay
    with the caller; these modules decide on the outcome of its comparisons
    (`compare.rs`) and hand back constants in tenths.
  - `search.rs` — request addresses, the YC company filter and how many
    filings are shown.
  - `text.rs` — character-level string utilities.
  - `outside.rs` — the contracts taken on trust from std, `chrono` and `uuid`.
- `tests/` — tests on concrete values.
- `app/` — the MCP server: parameter types with their serde/schemars derives,
  HTTP requests, floating-point arithmetic and JSON answers.
