# launchpad

A token launchpad and the staking program it relies on, as a verified
library.

- `src/ignition/` — sale pools: creation, funding, early purchases with a
  participant fee, vesting of the offered token (`state.rs`), claims,
  refunds of cancelled sales, and the split of the collection between the
  staking rewards and the pool's owner.  `laws.rs` proves the properties
  that span these instructions (for a positive vesting frequency and a
  share at the token generation date of at most 100%, vesting never
  decreases and ends at the whole allocation; refunds happen once and only for cancelled sales, claims only for sales
  that were not cancelled; the token
  generation date moves at most twice; purchases keep the pool's accounts
  consistent and within the early limit; funding never falls and a cancellation
  is never undone over any sequence of instructions, modelled by
  `pool_after`, which every pool-writing handler's contract matches, ...).
- `src/stake/` — the staking program: initialization, the fuel fee on
  stakes, rewards and their claims, with its own `laws.rs` (among them: the
  program's total stays the sum of all stakes and of the receipts minted).
- `src/key.rs`, `src/transfer.rs`, `src/math.rs`, `src/clock.rs` — account
  addresses, the token movements an instruction returns, integer helpers
  and the cluster clock.
- `app/` — the on-chain shell built on Anchor: account validation, the
  clock, token transfers and account storage around the library.
- `tests/` — concrete scenarios for every instruction and law.
