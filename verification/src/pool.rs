use vstd::prelude::*;

verus! {

/// Model of the foreign runtime's deferred-release bookkeeping: the number of
/// temporary objects that have been handed to the autorelease mechanism and
/// not yet reclaimed. A conversion strategy leaks exactly when it leaves this
/// count higher than it found it.
pub struct AutoreleaseLedger {
    pending: usize,
}

impl AutoreleaseLedger {
    /// The number of temporaries awaiting release.
    pub closed spec fn pending(&self) -> usize {
        self.pending
    }

    /// A fresh runtime with no temporary awaiting release.
    pub fn new() -> (ledger: AutoreleaseLedger)
        ensures
            ledger.pending() == 0,
    {
        AutoreleaseLedger { pending: 0 }
    }

    /// Exec view of the pending count, for callers outside ghost code.
    pub fn pending_count(&self) -> (n: usize)
        ensures
            n == self.pending(),
    {
        self.pending
    }

    /// Model of handing one object to the deferred-release mechanism: the
    /// object will be reclaimed only when an enclosing release boundary is
    /// drained.
    pub fn autorelease(&mut self)
        requires
            old(self).pending() < usize::MAX,
        ensures
            final(self).pending() == old(self).pending() + 1,
    {
        self.pending = self.pending + 1;
    }
}

/// Model of a scoped release boundary: opened before reading foreign objects,
/// drained on scope exit. Draining reclaims every temporary registered since
/// the boundary was opened. The guard is consumed by `drain`, so one boundary
/// releases its temporaries exactly once.
pub struct AutoreleasePool {
    floor: usize,
}

impl AutoreleasePool {
    /// The ledger depth recorded when the boundary was opened.
    pub closed spec fn floor(&self) -> usize {
        self.floor
    }

    /// Open a boundary: remember how many temporaries were already pending,
    /// so that draining touches only what is registered afterwards.
    pub fn open(ledger: &AutoreleaseLedger) -> (pool: AutoreleasePool)
        ensures
            pool.floor() == ledger.pending(),
    {
        AutoreleasePool { floor: ledger.pending_count() }
    }

    /// Drain the boundary: every temporary registered since `open` is
    /// released. Boundaries are strictly nested, so nothing below the
    /// recorded floor can have been released in the meantime.
    pub fn drain(self, ledger: &mut AutoreleaseLedger)
        requires
            self.floor() <= old(ledger).pending(),
        ensures
            final(ledger).pending() == self.floor(),
    {
        ledger.pending = self.floor;
    }
}

} // verus!
