# satellite_markets

Two Soroban contracts for satellite ground-station passes, with their rules
verified in Verus.

- `src/anchor.rs`: the pass registry. The first submission of a pass hash is
  recorded with the ledger time; every later one is refused.
- `src/market.rs`: binary prediction markets on the maximum elevation of a
  pass: creating, betting, resolving and claiming, each as a function from the
  stored records, the request and the ledger time to the records to store and
  the payout to make, or the refusal.
- `src/market_proofs.rs`: properties across requests: a claim is settled once,
  a market resolves once, bets stop at close and at resolution, losers get
  nothing, winners get at least their stake back, accepted bets keep the pools
  equal to the stakes, and the pools fund every payout.
- `app/`: the Soroban contracts themselves (storage, authorization, the ledger
  clock, token transfers, events), which defer every decision to the library.
- `tests/`: the contracts' scenarios run against the rules on an in-memory
  ledger, and tests of each rule.
