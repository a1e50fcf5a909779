//! The shutdown coordinator: a shared token whose live-hold count tracks
//! outstanding work and whose one-way flag records a shutdown request.
//!
//! The abstract protocol is a state machine over [`DrainModel`]: holds are
//! acquired when a connection or stream task starts, released exactly once
//! when it finishes, and the drain is complete exactly when a shutdown was
//! requested and only the coordinator's own baseline hold remains.

use vstd::prelude::*;

verus! {

/// The abstract state of the shutdown coordinator.
pub struct DrainModel {
    /// Whether a shutdown has been requested; one-way, never resets.
    pub requested: bool,
    /// Live holds on the token, the coordinator's own baseline hold included.
    pub holders: nat,
}

impl DrainModel {
    /// A well-formed coordinator never gives up its own baseline hold.
    pub open spec fn wf(self) -> bool {
        self.holders >= 1
    }

    /// No outstanding work beyond the coordinator's baseline hold.
    pub open spec fn at_baseline(self) -> bool {
        self.holders == 1
    }

    /// Drain is complete: a shutdown was requested and all work finished.
    pub open spec fn drained(self) -> bool {
        self.requested && self.at_baseline()
    }

    /// The state of a freshly created coordinator.
    pub open spec fn init() -> DrainModel {
        DrainModel { requested: false, holders: 1 }
    }
}

/// One observable event of the shutdown protocol.
pub enum TokenEvent {
    /// A unit of work started and took a hold on the token.
    Acquire,
    /// A unit of work finished and returned its hold.
    Release,
    /// A shutdown was requested.
    Signal,
}

/// The transition relation of the coordinator.
///
/// A release by the protocol only ever returns a hold that a unit of work
/// took, so the baseline hold is never given up: a `Release` at baseline
/// leaves the state unchanged.
pub open spec fn step(s: DrainModel, e: TokenEvent) -> DrainModel {
    match e {
        TokenEvent::Acquire => DrainModel { requested: s.requested, holders: s.holders + 1 },
        TokenEvent::Release => if s.holders >= 2 {
            DrainModel { requested: s.requested, holders: (s.holders - 1) as nat }
        } else {
            s
        },
        TokenEvent::Signal => DrainModel { requested: true, holders: s.holders },
    }
}

/// The coordinator after a whole trace of events.
pub open spec fn run(s: DrainModel, t: Seq<TokenEvent>) -> DrainModel
    decreases t.len(),
{
    if t.len() == 0 {
        s
    } else {
        run(step(s, t[0]), t.drop_first())
    }
}

/// Every event of the trace is a release.
pub open spec fn all_releases(t: Seq<TokenEvent>) -> bool {
    forall|i: int| 0 <= i < t.len() ==> t[i] is Release
}

/// Every event of the trace is an acquire.
pub open spec fn all_acquires(t: Seq<TokenEvent>) -> bool {
    forall|i: int| 0 <= i < t.len() ==> t[i] is Acquire
}

/// How many events of the trace acquire a hold.
pub open spec fn acquires_in(t: Seq<TokenEvent>) -> nat
    decreases t.len(),
{
    if t.len() == 0 {
        0
    } else {
        (if t[0] is Acquire { 1nat } else { 0nat }) + acquires_in(t.drop_first())
    }
}

/// How many events of the trace release a hold.
pub open spec fn releases_in(t: Seq<TokenEvent>) -> nat
    decreases t.len(),
{
    if t.len() == 0 {
        0
    } else {
        (if t[0] is Release { 1nat } else { 0nat }) + releases_in(t.drop_first())
    }
}

/// A trace obeys the protocol from `s`: a hold is only released while some
/// hold beyond the baseline is live, i.e. the count only decreases when a
/// unit of work that held the token finishes.
pub open spec fn admissible(s: DrainModel, t: Seq<TokenEvent>) -> bool
    decreases t.len(),
{
    t.len() == 0 || {
        &&& (t[0] is Release ==> s.holders >= 2)
        &&& admissible(step(s, t[0]), t.drop_first())
    }
}

/// Running a concatenated trace runs its parts in order.
pub proof fn lemma_run_concat(s: DrainModel, a: Seq<TokenEvent>, b: Seq<TokenEvent>)
    ensures
        run(s, a + b) == run(run(s, a), b),
    decreases a.len(),
{
    if a.len() == 0 {
        assert(a + b =~= b);
    } else {
        assert((a + b).drop_first() =~= a.drop_first() + b);
        assert((a + b)[0] == a[0]);
        lemma_run_concat(step(s, a[0]), a.drop_first(), b);
    }
}

/// The baseline hold survives every trace: the hold count never drops
/// below one, whatever happens.
pub proof fn lemma_run_preserves_wf(s: DrainModel, t: Seq<TokenEvent>)
    requires
        s.wf(),
    ensures
        run(s, t).wf(),
    decreases t.len(),
{
    if t.len() > 0 {
        lemma_run_preserves_wf(step(s, t[0]), t.drop_first());
    }
}

/// A requested shutdown is permanent: no later event resets the flag.
pub proof fn lemma_requested_is_permanent(s: DrainModel, t: Seq<TokenEvent>)
    requires
        s.requested,
    ensures
        run(s, t).requested,
    decreases t.len(),
{
    if t.len() > 0 {
        lemma_requested_is_permanent(step(s, t[0]), t.drop_first());
    }
}

/// Requesting a shutdown twice is observably identical to requesting it
/// once: the second request is a no-op on the state.
pub proof fn lemma_signal_idempotent(s: DrainModel)
    ensures
        step(step(s, TokenEvent::Signal), TokenEvent::Signal) == step(s, TokenEvent::Signal),
{
}

/// With no connection or stream ever registered — the coordinator still at
/// its baseline — a shutdown request completes the drain immediately.
pub proof fn lemma_drain_immediate_at_baseline(s: DrainModel)
    requires
        s.at_baseline(),
    ensures
        step(s, TokenEvent::Signal).drained(),
{
}

/// A shutdown request touches no in-flight work: it changes no hold
/// count, and the drain cannot complete while a hold beyond the baseline
/// is still outstanding.
pub proof fn lemma_signal_leaves_work_in_flight(s: DrainModel)
    ensures
        step(s, TokenEvent::Signal).holders == s.holders,
        s.holders >= 2 ==> !step(s, TokenEvent::Signal).drained(),
{
}

/// A trace of releases alone lowers the hold count by exactly its length,
/// as long as it returns no more holds than are outstanding; the flag is
/// untouched.
pub proof fn lemma_run_releases(s: DrainModel, t: Seq<TokenEvent>)
    requires
        all_releases(t),
        t.len() < s.holders,
    ensures
        run(s, t).holders == s.holders - t.len(),
        run(s, t).requested == s.requested,
    decreases t.len(),
{
    if t.len() > 0 {
        let rest = t.drop_first();
        assert forall|i: int| 0 <= i < rest.len() implies rest[i] is Release by {
            assert(rest[i] == t[i + 1]);
        }
        lemma_run_releases(step(s, t[0]), rest);
    }
}

/// A trace of acquires alone raises the hold count by exactly its length;
/// the flag is untouched.
pub proof fn lemma_run_acquires(s: DrainModel, t: Seq<TokenEvent>)
    requires
        all_acquires(t),
    ensures
        run(s, t).holders == s.holders + t.len(),
        run(s, t).requested == s.requested,
    decreases t.len(),
{
    if t.len() > 0 {
        let rest = t.drop_first();
        assert forall|i: int| 0 <= i < rest.len() implies rest[i] is Acquire by {
            assert(rest[i] == t[i + 1]);
        }
        lemma_run_acquires(step(s, t[0]), rest);
    }
}

/// With `n` units of work outstanding at the instant the shutdown is
/// requested, the drain is complete after `k` of them finish exactly when
/// `k == n` — in whatever order they finish, since every completion is the
/// same release event.
pub proof fn lemma_drained_iff_all_released(s: DrainModel, t: Seq<TokenEvent>)
    requires
        s.wf(),
        all_releases(t),
        t.len() <= s.holders - 1,
    ensures
        run(step(s, TokenEvent::Signal), t).drained() <==> t.len() == s.holders - 1,
{
    lemma_run_releases(step(s, TokenEvent::Signal), t);
}

/// Under any admissible interleaving, the hold count is exact bookkeeping:
/// what was at the start, plus the acquires, minus the releases. Each
/// completed unit of work moves the count down by exactly one.
pub proof fn lemma_holders_accounting(s: DrainModel, t: Seq<TokenEvent>)
    requires
        admissible(s, t),
    ensures
        run(s, t).holders == s.holders + acquires_in(t) - releases_in(t),
    decreases t.len(),
{
    if t.len() > 0 {
        lemma_holders_accounting(step(s, t[0]), t.drop_first());
    }
}

/// Spawning `k` units of work and then completing all of them returns the
/// hold count exactly to where it began — never below it.
pub proof fn lemma_spawn_complete_balances(s: DrainModel, a: Seq<TokenEvent>, r: Seq<TokenEvent>)
    requires
        s.wf(),
        all_acquires(a),
        all_releases(r),
        r.len() == a.len(),
    ensures
        run(s, a + r).holders == s.holders,
        run(s, a + r).requested == s.requested,
{
    lemma_run_concat(s, a, r);
    lemma_run_acquires(s, a);
    lemma_run_releases(run(s, a), r);
}

/// Witness that one unit of work holds the token.
///
/// A hold is not clonable and can only be spent by moving it, so each one
/// is released at most once.
pub struct TokenHold {
    _private: (),
}

/// The shared shutdown token: the one-way `requested` flag together with
/// the count of live holds.
pub struct ShutdownToken {
    requested: bool,
    holders: usize,
}

impl View for ShutdownToken {
    type V = DrainModel;

    closed spec fn view(&self) -> DrainModel {
        DrainModel { requested: self.requested, holders: self.holders as nat }
    }
}

impl ShutdownToken {
    /// Creates a coordinator holding only its own baseline hold, with no
    /// shutdown requested.
    pub fn new() -> (t: Self)
        ensures
            t@ == DrainModel::init(),
    {
        ShutdownToken { requested: false, holders: 1 }
    }

    /// Requests a shutdown. Idempotent: a second call leaves the state as
    /// the first left it. No in-flight work is touched; the hold count is
    /// unchanged.
    pub fn signal(&mut self)
        ensures
            final(self)@ == step(old(self)@, TokenEvent::Signal),
    {
        self.requested = true;
    }

    /// Whether a shutdown has been requested.
    pub fn is_requested(&self) -> (r: bool)
        ensures
            r == self@.requested,
    {
        self.requested
    }

    /// The number of live holds, the baseline hold included.
    pub fn holder_count(&self) -> (n: usize)
        ensures
            n == self@.holders,
    {
        self.holders
    }

    /// Takes a hold for a unit of work that is about to start.
    pub fn acquire(&mut self) -> (h: TokenHold)
        requires
            old(self)@.holders < usize::MAX,
        ensures
            final(self)@ == step(old(self)@, TokenEvent::Acquire),
    {
        self.holders = self.holders + 1;
        TokenHold { _private: () }
    }

    /// Returns the hold of a unit of work that finished. Consuming the
    /// hold makes a double release impossible.
    pub fn release(&mut self, hold: TokenHold)
        requires
            old(self)@.holders >= 2,
        ensures
            final(self)@ == step(old(self)@, TokenEvent::Release),
    {
        let TokenHold { _private } = hold;
        self.holders = self.holders - 1;
    }

    /// One cooperative poll of the drain: ready exactly when a shutdown
    /// was requested and every hold beyond the baseline was released.
    pub fn poll_drained(&self) -> (ready: bool)
        ensures
            ready == self@.drained(),
    {
        self.requested && self.holders == 1
    }

    /// Starts waiting for the drain. Obtainable only once a shutdown has
    /// been requested.
    pub fn wait_drained(&self) -> (d: DrainSignal)
        requires
            self@.requested,
    {
        DrainSignal { _private: () }
    }
}

/// The awaitable side of the drain: polled repeatedly against the token
/// until the drain is complete. Polling reads shared state and never
/// mutates it, so an abandoned wait leaves the coordinator reusable.
pub struct DrainSignal {
    _private: (),
}

impl DrainSignal {
    /// One poll against the coordinator: ready exactly when drained.
    pub fn poll(&self, token: &ShutdownToken) -> (ready: bool)
        ensures
            ready == token@.drained(),
    {
        token.poll_drained()
    }
}

/// Graceful-shutdown capabilities wrapped around a server or connection.
///
/// Pairs the wrapped value with the shutdown coordinator: every accepted
/// connection and every dispatched stream takes a hold on the token, and
/// the drain completes once a shutdown was requested and every hold came
/// back.
pub struct GracefulShutdown<T> {
    inner: T,
    token: ShutdownToken,
}

impl<T> GracefulShutdown<T> {
    /// The abstract state of the coordinator.
    pub closed spec fn model(self) -> DrainModel {
        self.token@
    }

    /// The wrapped value.
    pub closed spec fn inner_value(self) -> T {
        self.inner
    }

    /// Wraps `inner` with a fresh coordinator: no shutdown requested and
    /// only the baseline hold live.
    pub fn new(inner: T) -> (g: Self)
        ensures
            g.model() == DrainModel::init(),
            g.inner_value() == inner,
    {
        GracefulShutdown { inner, token: ShutdownToken::new() }
    }

    /// The current number of active holds on the coordinator — the
    /// baseline plus one per connection or stream still being served.
    pub fn num_of_conn(&self) -> (n: usize)
        ensures
            n == self.model().holders,
    {
        self.token.holder_count()
    }

    /// Whether a shutdown has been requested.
    pub fn is_requested(&self) -> (r: bool)
        ensures
            r == self.model().requested,
    {
        self.token.is_requested()
    }

    /// Takes a hold for a newly accepted connection or stream.
    pub fn register(&mut self) -> (h: TokenHold)
        requires
            old(self).model().holders < usize::MAX,
        ensures
            final(self).model() == step(old(self).model(), TokenEvent::Acquire),
            final(self).inner_value() == old(self).inner_value(),
    {
        self.token.acquire()
    }

    /// Returns the hold of a connection or stream that finished.
    pub fn retire(&mut self, hold: TokenHold)
        requires
            old(self).model().holders >= 2,
        ensures
            final(self).model() == step(old(self).model(), TokenEvent::Release),
            final(self).inner_value() == old(self).inner_value(),
    {
        self.token.release(hold)
    }

    /// Requests a shutdown and starts waiting for the drain: no new work
    /// will be accepted, in-flight work finishes untouched, and the
    /// returned signal becomes ready once every hold came back.
    pub fn shutdown(&mut self) -> (d: DrainSignal)
        ensures
            final(self).model() == step(old(self).model(), TokenEvent::Signal),
            final(self).inner_value() == old(self).inner_value(),
    {
        self.token.signal();
        self.token.wait_drained()
    }

    /// One cooperative poll of the drain: ready exactly when a shutdown
    /// was requested and only the baseline hold remains.
    pub fn poll_drained(&self) -> (ready: bool)
        ensures
            ready == self.model().drained(),
    {
        self.token.poll_drained()
    }

    /// The shared coordinator itself.
    pub fn token(&self) -> (t: &ShutdownToken)
        ensures
            t@ == self.model(),
    {
        &self.token
    }

    /// A shared borrow of the wrapped value.
    pub fn get(&self) -> (r: &T)
        ensures
            *r == self.inner_value(),
    {
        &self.inner
    }

    /// A mutable borrow of the wrapped value; the coordinator is untouched.
    pub fn get_mut(&mut self) -> (r: &mut T)
        ensures
            *r == old(self).inner_value(),
            final(self).inner_value() == *final(r),
            final(self).model() == old(self).model(),
    {
        &mut self.inner
    }

    /// Gives the wrapped value back, discarding the coordinator.
    pub fn into_inner(self) -> (r: T)
        ensures
            r == self.inner_value(),
    {
        self.inner
    }
}

} // verus!
