# boundless

The Boundless platform's contracts as verified state machines: an escrow with
fee routing and insurance, a reputation registry with SparkCredits, governance
voting with quadratic funding, and the work registries built on them
(bounties, crowdfunding, grants, hackathons, projects), a payment router and a
smart wallet with its factory.

- `src/` is the library, verified with Verus. Each contract is a struct whose
  view is its storage as maps of plain values; every operation takes the
  invocation context (`env::Env`: ledger time, token transfers, events) and the
  contracts it calls, and its contract states the new storage, transfers and
  events, or the error and that nothing changed. `src/laws.rs` holds the
  properties that span operations.
- `app/` is unverified glue for the ledger: it maps ledger addresses to the
  library's, carries out the token transfers that the library records, the
  signature checks that a wallet asks for, and the deployment and set-up of
  the wallets that the factory decides on.
- `tests/` runs the library on concrete scenarios.
