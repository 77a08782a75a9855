# proof_of_heart

A crowdfunding platform for education campaigns, written in Verus: the rules
of campaign creation, contributions and their caps, the anomaly guard,
refunds, milestone payouts, revenue sharing, ownership transfers, comments
and their censure, bookmarks, tags, community votes and the paginated
queries are proved against their contracts.

The platform's ledger state is a `state::Platform`. Each operation checks its
preconditions and either updates the state and returns the effects the host
must carry out (authorization checks, token transfers, events), or returns an
`errors::Error` and leaves the state exactly as it was.

Layout:

- `src/` — the verified library. `laws.rs` holds the properties that span
  several calls (a refund is paid once, a repeated vote changes nothing,
  saving and removing a bookmark gives the list back, milestone claims in
  any order pay the funds less the fee and the fee in full, escrowed
  contributions add up to the effective total, revenue paid to
  contributors stays within their part of the pool until the last
  claimant sweeps it, no campaign runs past a year, ...); `runs.rs` states
  the properties of whole runs of calls (every milestone claimed once in
  any order pays out the funds less the fee and the fee in full; any run of
  revenue claims on one pool pays contributors at most their part of it,
  and exactly that once all have claimed).
- `tests/` — tests on concrete values.
- `app/` — the host adapter for Soroban: it numbers addresses, reads the
  ledger, converts texts and performs the effects through `soroban-sdk`.
