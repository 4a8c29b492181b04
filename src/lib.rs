//! An account ledger for four coupled workflows: an escrow marketplace for single
//! assets, a staking ledger with daily rewards, rate-limited reward grants that vest
//! linearly, and a stake-weighted proposal tally. Each instruction is a transition over
//! the records it names, custody balances included: it either applies in full or
//! refuses with a `CustomError` and changes nothing. Custody held by the program is
//! released only under a derived authority whose derivation proof checks out.

use vstd::prelude::*;

pub mod authority;
pub mod clock;
pub mod error;
pub mod governance;
pub mod marketplace;
pub mod staking;
pub mod vesting;

verus! {

} // verus!
