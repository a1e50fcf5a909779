//! Behaviour of the accept-loop and stream-loop decision logic.

use h2x::{
    AcceptAction, AcceptEvent, Admission, HandlerOutcome, ShutdownToken, StreamAction, StreamEvent,
};
use h2x::server::{accept_action, on_accept_event, on_stream_event, stream_action};

#[test]
fn streams_dispatch_until_shutdown_is_requested() {
    assert_eq!(stream_action(false, StreamEvent::Opened), StreamAction::Dispatch);
    assert_eq!(stream_action(false, StreamEvent::Failed), StreamAction::Finish);
    assert_eq!(stream_action(false, StreamEvent::Closed), StreamAction::Finish);
}

#[test]
fn no_stream_is_dispatched_after_shutdown() {
    // However many streams arrive after the request, each one is refused.
    assert_eq!(stream_action(true, StreamEvent::Opened), StreamAction::Refuse);
    let mut token = ShutdownToken::new();
    token.signal();
    for _ in 0..10 {
        let (action, task) = on_stream_event(&mut token, StreamEvent::Opened);
        assert_eq!(action, StreamAction::Refuse);
        assert!(task.is_none());
        assert_eq!(token.holder_count(), 1);
    }
}

#[test]
fn dispatch_takes_exactly_one_hold() {
    let mut token = ShutdownToken::new();
    let (action, task) = on_stream_event(&mut token, StreamEvent::Opened);
    assert_eq!(action, StreamAction::Dispatch);
    assert_eq!(token.holder_count(), 2);
    task.unwrap().finish(&mut token, HandlerOutcome::Success);
    assert_eq!(token.holder_count(), 1);
}

#[test]
fn admission_verdicts_drive_the_accept_loop() {
    assert!(matches!(accept_action(false, AcceptEvent::Arrived(Admission::Accept(7))), AcceptAction::Spawn(7)));
    assert!(matches!(accept_action::<u8>(false, AcceptEvent::Arrived(Admission::Reject)), AcceptAction::Discard));
    assert!(matches!(accept_action::<u8>(false, AcceptEvent::Arrived(Admission::StopListening)), AcceptAction::Stop));
    assert!(matches!(accept_action::<u8>(false, AcceptEvent::TransportError), AcceptAction::Discard));
}

#[test]
fn requested_shutdown_stops_accepting_connections() {
    assert!(matches!(accept_action(true, AcceptEvent::Arrived(Admission::Accept(7))), AcceptAction::Stop));
    assert!(matches!(accept_action::<u8>(true, AcceptEvent::TransportError), AcceptAction::Stop));
}

#[test]
fn transient_transport_errors_keep_the_loop_going() {
    let mut token = ShutdownToken::new();
    let (action, hold) = on_accept_event::<u8>(&mut token, AcceptEvent::TransportError);
    assert!(matches!(action, AcceptAction::Discard));
    assert!(hold.is_none());
    assert_eq!(token.holder_count(), 1);
}

#[test]
fn stop_listening_on_second_connection_spawns_exactly_one_loop() {
    // The admission callback accepts the first connection and answers
    // `StopListening` on the second: exactly one connection loop is
    // spawned and the accept loop completes.
    let mut token = ShutdownToken::new();
    let verdicts = vec![Admission::Accept("peer-1"), Admission::StopListening, Admission::Accept("peer-2")];
    let mut spawned = Vec::new();
    let mut stopped = false;
    for verdict in verdicts {
        let (action, hold) = on_accept_event(&mut token, AcceptEvent::Arrived(verdict));
        match action {
            AcceptAction::Spawn(state) => spawned.push((state, hold.unwrap())),
            AcceptAction::Discard => {}
            AcceptAction::Stop => {
                stopped = true;
                break;
            }
        }
    }
    assert!(stopped);
    assert_eq!(spawned.len(), 1);
    assert_eq!(spawned[0].0, "peer-1");
    assert_eq!(token.holder_count(), 2);
}

#[test]
fn handler_error_leaves_sibling_and_close_callback_untouched() {
    // One connection with two sibling streams; the first handler fails.
    // The sibling must still run to completion and the connection's close
    // callback must still be invoked.
    let mut token = ShutdownToken::new();
    let conn_hold = token.acquire();

    let (action_a, task_a) = on_stream_event(&mut token, StreamEvent::Opened);
    assert_eq!(action_a, StreamAction::Dispatch);
    let (action_b, task_b) = on_stream_event(&mut token, StreamEvent::Opened);
    assert_eq!(action_b, StreamAction::Dispatch);
    assert_eq!(token.holder_count(), 4);

    // The first handler raises an error; it is caught at the task
    // boundary and releases the hold like any success.
    task_a.unwrap().finish(&mut token, HandlerOutcome::Error);
    assert_eq!(token.holder_count(), 3);

    // The sibling stream is unaffected and completes normally.
    task_b.unwrap().finish(&mut token, HandlerOutcome::Success);
    assert_eq!(token.holder_count(), 2);

    // End of connection: the loop finishes, the close callback runs, and
    // the connection's hold comes back.
    let (action_end, task_end) = on_stream_event(&mut token, StreamEvent::Closed);
    assert_eq!(action_end, StreamAction::Finish);
    assert!(task_end.is_none());
    let close_callback_ran = matches!(action_end, StreamAction::Finish);
    token.release(conn_hold);
    assert!(close_callback_ran);
    assert_eq!(token.holder_count(), 1);
}
