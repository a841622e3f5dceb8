# propfirm

A rule-evaluation engine for proprietary-trading-firm challenge accounts,
written in Verus. The functions in `src/` carry `requires`/`ensures`
contracts that Verus proves, except the small trusted wrappers around
outside crates (marked `#[verifier::external_body]`), whose contracts are
assumed.

## Layout

- `src/` — the verified library.
  - Domain model: `account`, `plan`, `presets`, `market`, `order`,
    `violation`, `types`, `fixed` (money as fixed point, eight decimals).
  - Decisions and state: `decision` (arbitration of rule verdicts),
    `state` (account transitions), `pipeline` (what each event does),
    `engine` (the pipeline over its stores), `store` and `events`
    (in-memory account store with optimistic concurrency, audit log).
  - Evaluation records: `pure` and `digest` (stateless evaluation and
    the SHA-256 fingerprint of its inputs), `rulepack`,
    `rulepack_store`, `row` (storage rows).
  - Services: `api` (the evaluate endpoint's logic), `auth`
    (service-token authentication), `idempotency`, `payout`,
    `liquidation`, `override_engine`, `risk`, `report`,
    `copy_trading`, `news_calendar`.
  - Laws the library keeps are public proof functions named `law_*`.
- `tests/` — tests run against the compiled library.
- `app/` — the command line around the library: I/O, clock, metrics
  (floating point), notifications and serde copies of the wire types.

Outside crates are called through small trusted wrappers, each with a doc
comment naming the function it calls and what its contract claims.
