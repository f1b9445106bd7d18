use std::sync::atomic::AtomicBool;
use std::sync::atomic::Ordering;
use vstd::prelude::*;

verus! {

/// The shared cancellation signal: one flag, created unset, moved to set at
/// most once by the orchestrator and polled by every worker between trials.
///
/// The flag is monotonic by construction: this type offers no way to store
/// `false` after creation. vstd's atomic specifications say nothing about the
/// stored value (another thread may move it at any moment), so no contract
/// here can speak of what `check` returns.
pub struct CancelFlag {
    flag: AtomicBool,
}

impl CancelFlag {
    /// A fresh, unsignalled flag.
    pub fn new() -> CancelFlag {
        CancelFlag { flag: AtomicBool::new(false) }
    }

    /// Requests cancellation. The only store this type performs is `true`,
    /// so a set flag never reverts.
    pub fn signal(&self) {
        self.flag.store(true, Ordering::Relaxed);
    }

    /// Polls the flag: a single relaxed load, cheap enough to call once per
    /// trial-loop iteration.
    pub fn check(&self) -> bool {
        self.flag.load(Ordering::Relaxed)
    }
}

} // verus!
