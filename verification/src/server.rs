//! Decision logic of the two serving loops: the top-level accept loop and
//! the per-connection stream-dispatch loop.
//!
//! Each loop alternates outside work (transport accepts, stream accepts,
//! handler I/O) with a decision. The decisions are pure functions of the
//! shutdown flag and the observed event, so they are stated and verified
//! here; the surrounding I/O performs the chosen action and hands the next
//! event back.

use vstd::prelude::*;
use crate::graceful_shutdown::{
    lemma_requested_is_permanent, run, step, DrainModel, ShutdownToken, TokenEvent, TokenHold,
};

verus! {

/// The admission callback's verdict on a newly arrived connection.
pub enum Admission<S> {
    /// Serve the connection, starting from this connection state.
    Accept(S),
    /// Discard the connection and keep listening.
    Reject,
    /// Discard the connection and stop the accept loop.
    StopListening,
}

/// What the accept loop observed in one iteration.
pub enum AcceptEvent<S> {
    /// A connection arrived and the admission callback judged it.
    Arrived(Admission<S>),
    /// The transport accept failed transiently, before a handshake.
    TransportError,
}

/// What the accept loop does next.
pub enum AcceptAction<S> {
    /// Spawn a connection loop for this connection state, then keep
    /// accepting without waiting for it.
    Spawn(S),
    /// Drop the connection and keep accepting.
    Discard,
    /// Stop accepting; connection loops already spawned are unaffected.
    Stop,
}

/// The accept loop's decision. Once a shutdown is requested the loop
/// stops exactly as on `StopListening`; otherwise the admission verdict
/// decides, and a transient transport error is ignored.
pub open spec fn spec_accept_action<S>(requested: bool, ev: AcceptEvent<S>) -> AcceptAction<S> {
    if requested {
        AcceptAction::Stop
    } else {
        match ev {
            AcceptEvent::Arrived(Admission::Accept(state)) => AcceptAction::Spawn(state),
            AcceptEvent::Arrived(Admission::Reject) => AcceptAction::Discard,
            AcceptEvent::Arrived(Admission::StopListening) => AcceptAction::Stop,
            AcceptEvent::TransportError => AcceptAction::Discard,
        }
    }
}

/// One decision of the accept loop.
pub fn accept_action<S>(requested: bool, ev: AcceptEvent<S>) -> (a: AcceptAction<S>)
    ensures
        a == spec_accept_action(requested, ev),
{
    if requested {
        AcceptAction::Stop
    } else {
        match ev {
            AcceptEvent::Arrived(Admission::Accept(state)) => AcceptAction::Spawn(state),
            AcceptEvent::Arrived(Admission::Reject) => AcceptAction::Discard,
            AcceptEvent::Arrived(Admission::StopListening) => AcceptAction::Stop,
            AcceptEvent::TransportError => AcceptAction::Discard,
        }
    }
}

/// What one accept-next-stream call on a connection reported.
#[derive(Clone, Copy, Debug, PartialEq, Eq, Structural)]
pub enum StreamEvent {
    /// The peer opened a new stream.
    Opened,
    /// The stream accept failed; the connection is done for.
    Failed,
    /// End of connection: the peer has no further streams.
    Closed,
}

/// What the connection loop does next.
#[derive(Clone, Copy, Debug, PartialEq, Eq, Structural)]
pub enum StreamAction {
    /// Spawn a handler task for the new stream and keep accepting
    /// without waiting for it.
    Dispatch,
    /// Do not dispatch: begin a graceful close of the connection so the
    /// peer stops opening streams, and keep draining the loop.
    Refuse,
    /// Leave the loop, invoke the close callback, and return this
    /// connection's hold on the token.
    Finish,
}

/// The connection loop's decision. The shutdown flag is checked at
/// stream-admission time, not connection-admission time: streams already
/// dispatched finish untouched while newly arriving ones are refused.
pub open spec fn spec_stream_action(requested: bool, ev: StreamEvent) -> StreamAction {
    match ev {
        StreamEvent::Opened => if requested {
            StreamAction::Refuse
        } else {
            StreamAction::Dispatch
        },
        StreamEvent::Failed => StreamAction::Finish,
        StreamEvent::Closed => StreamAction::Finish,
    }
}

/// One decision of the per-connection stream loop.
pub fn stream_action(requested: bool, ev: StreamEvent) -> (a: StreamAction)
    ensures
        a == spec_stream_action(requested, ev),
{
    match ev {
        StreamEvent::Opened => if requested {
            StreamAction::Refuse
        } else {
            StreamAction::Dispatch
        },
        StreamEvent::Failed => StreamAction::Finish,
        StreamEvent::Closed => StreamAction::Finish,
    }
}

/// How one caller-supplied stream handler ended.
#[derive(Clone, Copy, Debug, PartialEq, Eq, Structural)]
pub enum HandlerOutcome {
    /// The handler returned normally.
    Success,
    /// The handler raised an error; it is caught at the task boundary and
    /// propagated no further.
    Error,
}

/// Runs one caller-supplied handler for one stream, holding the token for
/// exactly the task's lifetime.
///
/// The task owns its hold and gives it back only through [`Self::finish`],
/// which consumes the task: the hold is released exactly once, on every
/// completion path, and never twice.
pub struct StreamHandlerTask {
    hold: TokenHold,
}

impl StreamHandlerTask {
    /// Completes the task. The hold is released the same way whether the
    /// handler succeeded or failed: a failing stream never affects
    /// sibling streams, its connection, or the drain.
    pub fn finish(self, token: &mut ShutdownToken, _outcome: HandlerOutcome)
        requires
            old(token)@.holders >= 2,
        ensures
            final(token)@ == step(old(token)@, TokenEvent::Release),
    {
        let StreamHandlerTask { hold } = self;
        token.release(hold);
    }
}

/// One full iteration of the per-connection stream loop: decides on the
/// event and does the token bookkeeping. Exactly on `Dispatch` a handler
/// task is created, holding one fresh hold on the token; every other
/// decision leaves the token untouched.
pub fn on_stream_event(token: &mut ShutdownToken, ev: StreamEvent) -> (r: (
    StreamAction,
    Option<StreamHandlerTask>,
))
    requires
        old(token)@.holders < usize::MAX,
    ensures
        r.0 == spec_stream_action(old(token)@.requested, ev),
        r.0 is Dispatch ==> final(token)@ == step(old(token)@, TokenEvent::Acquire) && r.1 is Some,
        !(r.0 is Dispatch) ==> final(token)@ == old(token)@ && r.1 is None,
{
    let a = stream_action(token.is_requested(), ev);
    match a {
        StreamAction::Dispatch => {
            let hold = token.acquire();
            (StreamAction::Dispatch, Some(StreamHandlerTask { hold }))
        },
        StreamAction::Refuse => (StreamAction::Refuse, None),
        StreamAction::Finish => (StreamAction::Finish, None),
    }
}

/// One full iteration of the accept loop: decides on the event and does
/// the token bookkeeping. Exactly on `Spawn` a fresh hold is taken, to be
/// owned by the spawned connection loop; every other decision leaves the
/// token untouched.
pub fn on_accept_event<S>(token: &mut ShutdownToken, ev: AcceptEvent<S>) -> (r: (
    AcceptAction<S>,
    Option<TokenHold>,
))
    requires
        old(token)@.holders < usize::MAX,
    ensures
        r.0 == spec_accept_action(old(token)@.requested, ev),
        r.0 is Spawn ==> final(token)@ == step(old(token)@, TokenEvent::Acquire) && r.1 is Some,
        !(r.0 is Spawn) ==> final(token)@ == old(token)@ && r.1 is None,
{
    let a = accept_action(token.is_requested(), ev);
    match a {
        AcceptAction::Spawn(state) => {
            let hold = token.acquire();
            (AcceptAction::Spawn(state), Some(hold))
        },
        AcceptAction::Discard => (AcceptAction::Discard, None),
        AcceptAction::Stop => (AcceptAction::Stop, None),
    }
}

/// After a shutdown request, however the protocol continues and in
/// whatever order work completes, a stream arriving at any later point is
/// refused, never dispatched to a handler.
pub proof fn lemma_no_dispatch_after_signal(s: DrainModel, t: Seq<TokenEvent>)
    ensures
        spec_stream_action(run(step(s, TokenEvent::Signal), t).requested, StreamEvent::Opened)
            == StreamAction::Refuse,
{
    lemma_requested_is_permanent(step(s, TokenEvent::Signal), t);
}

} // verus!
