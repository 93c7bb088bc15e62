//! Wall-clock time, read through nostr's `Timestamp`.
use vstd::prelude::*;

verus! {

/// `nostr_sdk::Timestamp::now().as_secs()`: the current UNIX time in seconds. Nothing is
/// promised of the value: it is the machine's clock.
#[verifier::external_body]
pub(crate) fn unix_now_secs() -> u64 {
    nostr_sdk::Timestamp::now().as_secs()
}

} // verus!
