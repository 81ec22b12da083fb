//! The shared configuration cell: a holder of one current, immutable
//! configuration snapshot, read through shared handles and replaced whole.

use std::sync::Arc;
use vstd::prelude::*;

verus! {

/// A holder of the one current configuration snapshot.
///
/// Readers obtain a reference-counted handle to whatever snapshot is current
/// at the moment of the call; a writer installs a whole new snapshot at once.
/// A snapshot, once published, is never changed in place: a handle handed out
/// earlier keeps its value across every later `replace` (snapshot isolation).
///
/// Construction requires an initial snapshot, so a cell without a current
/// snapshot is unrepresentable and `read` is total.
pub struct ConfigCell<T> {
    inner: Arc<T>,
}

impl<T> ConfigCell<T> {
    /// The snapshot currently installed in the cell.
    pub closed spec fn current(self) -> T {
        *self.inner
    }

    /// Builds a cell whose current snapshot is `initial`.
    pub fn new(initial: T) -> (cell: Self)
        ensures
            cell.current() == initial,
    {
        ConfigCell { inner: Arc::new(initial) }
    }

    /// Returns a handle to the snapshot current at the moment of the call:
    /// always the whole current snapshot, never a partial or torn one, and
    /// never an error. The handle is a value of its own: it keeps this
    /// snapshot however the cell is updated afterwards.
    pub fn read(&self) -> (handle: Arc<T>)
        ensures
            *handle == self.current(),
    {
        self.inner.clone()
    }

    /// Installs `snapshot` as the current snapshot, whole and at once, for
    /// every subsequent `read`. Handles obtained before the call are separate
    /// values and keep the snapshot they already hold.
    pub fn replace(&mut self, snapshot: T)
        ensures
            final(self).current() == snapshot,
    {
        self.inner = Arc::new(snapshot);
    }
}

/// The configuration command: reads the current snapshot out of the shared
/// cell and hands the caller its own handle to it. Total: no error path.
pub fn get_config<T>(cell: &ConfigCell<T>) -> (snapshot: Arc<T>)
    ensures
        *snapshot == cell.current(),
{
    cell.read()
}

/// Until the first `replace`, every read of a cell built with snapshot `s0`
/// yields `s0`: a cell's current snapshot is exactly what construction
/// installed, and `read` returns exactly the current snapshot.
pub proof fn lemma_read_until_first_replace<T>(cell: ConfigCell<T>, s0: T, handle: T)
    requires
        cell.current() == s0,
        handle == cell.current(),
    ensures
        handle == s0,
{
}

/// Snapshot isolation around a `replace`: after the cell moves from current
/// snapshot `s0` to `s1`, a handle read before the call still holds `s0`,
/// while every handle read afterwards holds `s1`. Stale readers are not
/// retroactively updated.
pub proof fn lemma_snapshot_isolation<T>(
    before: ConfigCell<T>,
    after: ConfigCell<T>,
    s0: T,
    s1: T,
    stale: T,
    fresh: T,
)
    requires
        before.current() == s0,
        stale == before.current(),
        after.current() == s1,
        fresh == after.current(),
    ensures
        stale == s0,
        fresh == s1,
{
}

} // verus!
