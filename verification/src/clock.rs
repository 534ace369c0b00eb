//! The cluster clock.
use vstd::prelude::*;

verus! {

/// The cluster's current unix time: `anchor_lang`'s `Clock::get()`, taking
/// the clock's `unix_timestamp`, or `None` when the clock sysvar cannot be
/// read.  Nothing is claimed of the value read: it is the time.
#[verifier::external_body]
pub(crate) fn current_unix_timestamp() -> Option<i64> {
    <anchor_lang::prelude::Clock as anchor_lang::solana_program::sysvar::Sysvar>::get().ok().map(|clock| clock.unix_timestamp)
}

} // verus!
