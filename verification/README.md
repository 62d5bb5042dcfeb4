# tttb_backend

The verified core of a portfolio ledger service: request and configuration
parsing, the decisions of the import, commit and rollback flows, ledger
decoding, market-data refresh leases, the gains report (its rows, the
performance percentages and the portfolio waterfall), and the shaping of
holdings, rebalance and history responses. Every function in `src/` is verified with
Verus against its `requires`/`ensures` contract; the laws the library keeps
are public proof functions (`lemma_*`).

- `src/` — the library. Calls into `rust_decimal` and `chrono` go through a
  few small trusted wrappers (`#[verifier::external_body]`) whose contracts
  state what those crates document. Paths follow Windows rules, the platform
  the service runs on.
- `tests/` — tests of the library on concrete values.
- `app/` — the service shell: environment lookups, the clock, SQLite storage
  of refresh runs and the data revision, the HTTP edge (extractors, error
  responses, middleware) and the serde wire types.
