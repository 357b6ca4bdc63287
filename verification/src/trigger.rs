use vstd::prelude::*;
use vstd::rwlock::{RwLock, RwLockPredicate};

verus! {

/// Predicate for the trigger's inner lock: any boolean may be stored.
pub struct FlagInv {}

impl RwLockPredicate<bool> for FlagInv {
    open spec fn inv(self, v: bool) -> bool {
        true
    }
}

/// A one-way shared boolean. It has the following features:
/// - The state is shared. It can be cloned like an `Arc`.
/// - The default value is `false`.
/// - Once `fire()` has been called, the value is set to `true` and is never
///   set back to `false` again: `fire` is the only writer and always writes
///   `true`.
#[derive(Clone)]
pub struct Trigger {
    flag: std::sync::Arc<RwLock<bool, FlagInv>>,
}

impl Trigger {
    /// Creates a new trigger whose value is `false`.
    pub fn new() -> Trigger {
        Trigger { flag: std::sync::Arc::new(RwLock::new(false, Ghost(FlagInv {}))) }
    }

    /// Sets the value to `true`.
    pub fn fire(&self) {
        let (_, handle) = self.flag.acquire_write();
        handle.release_write(true);
    }

    /// Returns the current value of the trigger.
    pub fn is_fired(&self) -> bool {
        let handle = self.flag.acquire_read();
        let fired: bool = *handle.borrow();
        handle.release_read();
        fired
    }
}

impl Default for Trigger {
    /// A fresh trigger, not fired yet.
    fn default() -> Trigger {
        Trigger::new()
    }
}

} // verus!
