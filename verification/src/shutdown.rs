//! Primitive building blocks of the shutdown protocol: a one-way shutdown
//! flag and a wait group that counts outstanding handles.

use vstd::prelude::*;

verus! {

/// Signals a shutdown request to a running server.
///
/// Implementors carry a one-way flag: once a shutdown has been requested
/// the flag stays set, and `is_shutdown` reports it.
pub trait SignalShutdown: Sized {
    /// The abstract value of the shutdown flag.
    spec fn requested(&self) -> bool;

    /// Request a shutdown. The flag never resets afterwards.
    fn shutdown(&mut self)
        ensures
            final(self).requested(),
    ;

    /// Report whether a shutdown has been requested.
    fn is_shutdown(&self) -> (r: bool)
        ensures
            r == self.requested(),
    ;
}

/// The state of a shutdown process: a boolean flag that only ever moves
/// from `false` to `true`.
#[derive(Clone, Debug)]
pub struct ShutDownState {
    /// Whether a shutdown has been requested; moves from `false` to `true` once.
    pub flag: bool,
}

impl ShutDownState {
    /// Creates a new state with the flag cleared.
    pub fn new() -> (s: Self)
        ensures
            !s.requested(),
    {
        ShutDownState { flag: false }
    }
}

impl Default for ShutDownState {
    /// The state of a process on which no shutdown was requested yet.
    fn default() -> (s: Self)
        ensures
            !s.requested(),
    {
        ShutDownState { flag: false }
    }
}

impl SignalShutdown for ShutDownState {
    open spec fn requested(&self) -> bool {
        self.flag
    }

    fn shutdown(&mut self)
        ensures
            *final(self) == (ShutDownState { flag: true }),
    {
        self.flag = true;
    }

    fn is_shutdown(&self) -> (r: bool) {
        self.flag
    }
}

/// A wait group: a synchronization primitive that becomes ready when every
/// outstanding handle to the shared value has been returned.
///
/// It keeps the shared value together with the number of handles that are
/// still live; the group's own reference is permanent and not counted.
pub struct WaitGroup<T> {
    value: T,
    outstanding: usize,
}

impl<T> WaitGroup<T> {
    /// The shared value.
    pub closed spec fn value(self) -> T {
        self.value
    }

    /// How many handles to the shared value are still live.
    pub closed spec fn outstanding(self) -> nat {
        self.outstanding as nat
    }

    /// Creates a wait group over `v`, together with one initial live handle.
    pub fn new(v: T) -> (w: Self)
        ensures
            w.value() == v,
            w.outstanding() == 1,
    {
        WaitGroup { value: v, outstanding: 1 }
    }

    /// Records that a further handle to the shared value was given out.
    pub fn share(&mut self)
        requires
            old(self).outstanding() < usize::MAX,
        ensures
            final(self).value() == old(self).value(),
            final(self).outstanding() == old(self).outstanding() + 1,
    {
        self.outstanding = self.outstanding + 1;
    }

    /// Records that one handle finished its work and was returned.
    pub fn finish(&mut self)
        requires
            old(self).outstanding() >= 1,
        ensures
            final(self).value() == old(self).value(),
            final(self).outstanding() == old(self).outstanding() - 1,
    {
        self.outstanding = self.outstanding - 1;
    }

    /// One poll of the group: ready exactly when no handle is outstanding.
    pub fn poll(&self) -> (ready: bool)
        ensures
            ready == (self.outstanding() == 0),
    {
        self.outstanding == 0
    }

    /// A shared borrow of the protected value.
    pub fn get(&self) -> (r: &T)
        ensures
            *r == self.value(),
    {
        &self.value
    }
}

} // verus!
