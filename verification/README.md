# IndigoPay

The rules of the IndigoPay contracts, written and proved in Verus: milestone escrow, a price oracle and
stealth donations.

- `src/escrow/`: jobs that are paid milestone by milestone, with proofs of work, disputes, a set of admins
  who approve by threshold, and a record for every freelancer.
- `src/oracle/`: a ring of reported prices, their time-weighted average, a breaker against jumps, stakes that
  can be slashed, and the median over other oracles.
- `src/donation/`: donations to one-time addresses, their balances and withdrawals.
- `src/dummy.rs`: a probe that asks another contract for its price.
- `src/table.rs`, `src/address.rs`, `src/context.rs`, `src/bytes.rs`, `src/arithmetic.rs`: what the contracts
  share.
- `src/host.rs`: the calls into the Soroban host, and what is relied on of each of them.
- `app/`: the contracts on the host, that is authentication, storage, events and token transfers.
- `tests/`: scenarios.

In each contract, `state.rs` says what a state is, `transitions.rs` what every call does to it and when it is
refused, and `contract.rs` holds the calls, each proved to do just that. `laws.rs` and its neighbours state
what follows for all calls and all states: funds are paid once and never beyond the amount of a job, disputed
jobs are frozen, stakes and balances match the tokens that moved, a quoted price lies between those reported.

A call takes the addresses in its arguments for granted: whoever runs the library has to authenticate them
first. It returns a receipt, with what is to be published and which tokens are to move.
