//! Session state of the browser shell, shared by all its command handlers.
use vstd::prelude::*;
use vstd::rwlock::{RwLock, RwLockPredicate};

verus! {

/// What the lock round the last known URL admits: any value, as long as it
/// is only ever stored or read whole, under the lock.
pub struct LastUrlSlot;

impl RwLockPredicate<Option<String>> for LastUrlSlot {
    open spec fn inv(self, v: Option<String>) -> bool {
        true
    }
}

/// State shared by the handlers of the browser shell: the last known URL,
/// behind a lock so that concurrent handlers only ever see it whole.
pub struct BrowserState {
    pub last_url: RwLock<Option<String>, LastUrlSlot>,
}

impl Default for BrowserState {
    /// A session with no URL known yet.
    fn default() -> (r: BrowserState)
        ensures
            r.last_url.pred() == LastUrlSlot,
            r.last_url.inv(None),
    {
        BrowserState { last_url: RwLock::new(None, Ghost(LastUrlSlot)) }
    }
}

} // verus!
