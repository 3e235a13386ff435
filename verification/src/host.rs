use vstd::prelude::*;

use crate::store::Store;
use crate::types::{AuctionEvent, Identity};

verus! {

/// The world one invocation of the machine runs in: the persisted store,
/// the clock's reading, the identities whose control the active caller has
/// proven to the host's authenticator, and the notifications published so
/// far. The machine mutates only `store` and `events`; the clock and the
/// authenticator's verdicts are the host's alone.
pub struct AuctionEnv {
    /// The persistent slot store.
    pub store: Store,
    /// The clock's current reading, monotone non-decreasing across
    /// invocations.
    pub now: u64,
    /// The identities the active caller has proven control of.
    pub auths: Vec<Identity>,
    /// Notifications published so far, oldest first.
    pub events: Vec<AuctionEvent>,
}

/// The authenticator's verdict on one identity: whether it is among those
/// the caller has proven.
pub fn contains_identity(ids: &Vec<Identity>, id: Identity) -> (r: bool)
    ensures
        r == ids@.contains(id),
{
    let mut i: usize = 0;
    while i < ids.len()
        invariant
            i <= ids@.len(),
            forall|j: int| 0 <= j < i ==> ids@[j] != id,
        decreases ids@.len() - i,
    {
        if ids[i] == id {
            assert(ids@[i as int] == id);
            return true;
        }
        i += 1;
    }
    false
}

} // verus!
