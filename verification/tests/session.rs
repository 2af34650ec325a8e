use log_relay::session::logs;
use log_relay::session::Action;
use log_relay::session::Outcome;
use log_relay::session::RelaySession;
use log_relay::session::SessionEvent;
use log_relay::session::DEFAULT_BACKLOG_LINES;
use log_relay::session::DEFAULT_QUEUE_BOUND;
use log_relay::subscription::RelayError;
use log_relay::subscription::SubscriptionRequest;
use log_relay::subscription::SubscriptionState;

fn chunk(bytes: &[u8]) -> SessionEvent {
    SessionEvent::Chunk(bytes.to_vec())
}

fn offered(action: &Action) -> Option<String> {
    match action {
        Action::Transfer { frame: Some(frame), .. } => Some(frame.data().to_string()),
        _ => None,
    }
}

fn wants_read(action: &Action) -> bool {
    matches!(action, Action::Transfer { read: true, .. })
}

fn streaming_session(bound: usize) -> RelaySession {
    let request = SubscriptionRequest { workload: 5, follow: true, backlog_lines: 1 };
    let mut session = RelaySession::new(request, bound);
    session.step(SessionEvent::SourceOpened);
    session
}

/// Delivers every frame that the session offers and returns their payloads.
fn drain(session: &mut RelaySession) -> Vec<String> {
    let mut taken = Vec::new();
    while let Some(payload) = offered(&session.action()) {
        taken.push(payload);
        session.step(SessionEvent::FrameDelivered);
    }
    taken
}

#[test]
fn logs_session_follows_with_backlog_of_one() {
    let session = logs(17);
    let request = SubscriptionRequest { workload: 17, follow: true, backlog_lines: 1 };
    assert_eq!(DEFAULT_BACKLOG_LINES, 1);
    assert_eq!(session.request(), request);
    assert_eq!(session.source_state(), SubscriptionState::Opening);
    assert_eq!(session.action(), Action::Open(request));
    assert_eq!(session.queued(), 0);
    assert_eq!(session.pending_len(), 0);
    assert_eq!(session.outcome(), None);
    assert!(!session.is_finished());
}

#[test]
fn three_lines_are_delivered_then_session_completes() {
    let mut session = logs(1);
    let action = session.step(SessionEvent::SourceOpened);
    assert_eq!(action, Action::Transfer { read: true, frame: None });

    let action = session.step(chunk(b"line1\n"));
    assert!(wants_read(&action));
    assert_eq!(offered(&action), Some("\"line1\"".to_string()));
    let action = session.step(SessionEvent::FrameDelivered);
    assert_eq!(action, Action::Transfer { read: true, frame: None });

    let action = session.step(chunk(b"li"));
    assert_eq!(action, Action::Transfer { read: true, frame: None });
    assert_eq!(session.pending_len(), 2);

    let action = session.step(chunk(b"ne2\nline3"));
    assert_eq!(offered(&action), Some("\"line2\"".to_string()));
    let action = session.step(SessionEvent::FrameDelivered);
    assert_eq!(action, Action::Transfer { read: true, frame: None });
    assert_eq!(session.pending_len(), 5);

    let action = session.step(SessionEvent::SourceClosed);
    assert!(!wants_read(&action));
    assert_eq!(offered(&action), Some("\"line3\"".to_string()));
    assert_eq!(session.source_state(), SubscriptionState::Closed);
    assert!(!session.is_finished());

    let action = session.step(SessionEvent::FrameDelivered);
    assert_eq!(action, Action::Finish(Outcome::Completed));
    assert_eq!(session.outcome(), Some(Outcome::Completed));
    assert!(session.is_finished());
}

#[test]
fn frames_leave_in_source_order() {
    let mut session = streaming_session(8);
    session.step(chunk(b"a\nb\nc"));
    session.step(chunk(b"c\nd\n"));
    session.step(SessionEvent::SourceClosed);
    assert_eq!(session.queued(), 4);
    assert_eq!(drain(&mut session), vec!["\"a\"", "\"b\"", "\"cc\"", "\"d\""]);
    assert_eq!(session.action(), Action::Finish(Outcome::Completed));
}

#[test]
fn quiet_source_keeps_the_session_waiting() {
    let mut session = streaming_session(DEFAULT_QUEUE_BOUND);
    for _ in 0..3 {
        assert_eq!(session.action(), Action::Transfer { read: true, frame: None });
        assert_eq!(session.outcome(), None);
        assert_eq!(session.source_state(), SubscriptionState::Streaming);
        session.step(SessionEvent::FrameDelivered);
    }
    assert_eq!(session.step(chunk(b"")), Action::Transfer { read: true, frame: None });
    assert_eq!(session.step(SessionEvent::ClientGone), Action::Finish(Outcome::ClientDisconnected));
}

#[test]
fn unknown_workload_ends_with_source_unavailable() {
    let mut session = logs(404);
    let action = session.step(SessionEvent::SourceUnavailable);
    assert_eq!(action, Action::Finish(Outcome::Failed(RelayError::SourceUnavailable)));
    assert_eq!(
        session.source_state(),
        SubscriptionState::Failed(RelayError::SourceUnavailable)
    );
    assert_eq!(session.queued(), 0);
    assert!(session.is_finished());
}

#[test]
fn client_gone_drops_what_waits() {
    let mut session = streaming_session(8);
    session.step(chunk(b"one\ntwo\nthree\npart"));
    assert_eq!(offered(&session.action()), Some("\"one\"".to_string()));
    session.step(SessionEvent::FrameDelivered);
    assert_eq!(session.queued(), 2);
    assert_eq!(session.pending_len(), 4);

    let action = session.step(SessionEvent::ClientGone);
    assert_eq!(action, Action::Finish(Outcome::ClientDisconnected));
    assert_eq!(session.source_state(), SubscriptionState::Cancelled);
    assert_eq!(session.queued(), 0);
    assert_eq!(session.pending_len(), 0);
    assert_eq!(session.outcome(), Some(Outcome::ClientDisconnected));
}

#[test]
fn ended_session_ignores_every_event() {
    let mut session = streaming_session(8);
    session.step(chunk(b"x\n"));
    session.step(SessionEvent::ClientGone);
    let events = vec![
        SessionEvent::SourceOpened,
        SessionEvent::SourceUnavailable,
        chunk(b"late\n"),
        SessionEvent::SourceClosed,
        SessionEvent::SourceFailed,
        SessionEvent::FrameDelivered,
        SessionEvent::ClientGone,
    ];
    for event in events {
        assert_eq!(session.step(event), Action::Finish(Outcome::ClientDisconnected));
        assert_eq!(session.queued(), 0);
        assert_eq!(session.source_state(), SubscriptionState::Cancelled);
    }
}

#[test]
fn client_gone_while_opening_cancels() {
    let mut session = logs(2);
    let action = session.step(SessionEvent::ClientGone);
    assert_eq!(action, Action::Finish(Outcome::ClientDisconnected));
    assert_eq!(session.source_state(), SubscriptionState::Cancelled);
}

#[test]
fn client_gone_after_source_closed_keeps_the_source_closed() {
    let mut session = streaming_session(8);
    session.step(chunk(b"a\nb\n"));
    session.step(SessionEvent::SourceClosed);
    let action = session.step(SessionEvent::ClientGone);
    assert_eq!(action, Action::Finish(Outcome::ClientDisconnected));
    assert_eq!(session.source_state(), SubscriptionState::Closed);
    assert_eq!(session.queued(), 0);
}

#[test]
fn read_failure_is_reported_after_the_waiting_frames() {
    let mut session = streaming_session(8);
    session.step(chunk(b"kept\nlost"));
    let action = session.step(SessionEvent::SourceFailed);
    assert!(!wants_read(&action));
    assert_eq!(offered(&action), Some("\"kept\"".to_string()));
    assert_eq!(session.pending_len(), 0);
    assert_eq!(session.outcome(), None);
    assert_eq!(
        session.source_state(),
        SubscriptionState::Failed(RelayError::SourceReadError)
    );
    let action = session.step(SessionEvent::FrameDelivered);
    assert_eq!(action, Action::Finish(Outcome::Failed(RelayError::SourceReadError)));
}

#[test]
fn reading_pauses_above_the_bound() {
    let mut session = streaming_session(1);
    let action = session.step(chunk(b"1\n2\n3\n"));
    assert_eq!(session.queued(), 3);
    assert!(!wants_read(&action));
    assert_eq!(offered(&action), Some("\"1\"".to_string()));
    let action = session.step(SessionEvent::FrameDelivered);
    assert_eq!(session.queued(), 2);
    assert!(!wants_read(&action));
    let action = session.step(SessionEvent::FrameDelivered);
    assert_eq!(session.queued(), 1);
    assert!(wants_read(&action));
    assert_eq!(offered(&action), Some("\"3\"".to_string()));
}

#[test]
fn bound_of_zero_reads_only_when_nothing_waits() {
    let mut session = streaming_session(0);
    assert!(wants_read(&session.action()));
    let action = session.step(chunk(b"x\n"));
    assert!(!wants_read(&action));
    let action = session.step(SessionEvent::FrameDelivered);
    assert_eq!(action, Action::Transfer { read: true, frame: None });
}

#[test]
fn chunk_above_the_bound_is_not_dropped() {
    let mut session = streaming_session(0);
    session.step(chunk(b"a\n"));
    session.step(chunk(b"b\nc\n"));
    assert_eq!(session.queued(), 3);
    assert_eq!(drain(&mut session), vec!["\"a\"", "\"b\"", "\"c\""]);
}

#[test]
fn events_without_meaning_are_ignored() {
    let mut session = logs(9);
    let request = session.request();
    assert_eq!(session.step(chunk(b"early\n")), Action::Open(request));
    assert_eq!(session.step(SessionEvent::SourceClosed), Action::Open(request));
    assert_eq!(session.step(SessionEvent::SourceFailed), Action::Open(request));
    assert_eq!(session.step(SessionEvent::FrameDelivered), Action::Open(request));
    assert_eq!(session.queued(), 0);
    session.step(SessionEvent::SourceOpened);
    let action = session.step(SessionEvent::SourceUnavailable);
    assert_eq!(action, Action::Transfer { read: true, frame: None });
    assert_eq!(session.source_state(), SubscriptionState::Streaming);
}

#[test]
fn stream_without_last_terminator_flushes_on_close() {
    let mut session = streaming_session(8);
    session.step(chunk(b"only"));
    assert_eq!(session.queued(), 0);
    session.step(SessionEvent::SourceClosed);
    assert_eq!(drain(&mut session), vec!["\"only\""]);
    assert_eq!(session.outcome(), Some(Outcome::Completed));
}

#[test]
fn empty_stream_completes_without_frames() {
    let mut session = streaming_session(8);
    let action = session.step(SessionEvent::SourceClosed);
    assert_eq!(action, Action::Finish(Outcome::Completed));
}

#[test]
fn invalid_bytes_reach_the_client_as_replacement() {
    let mut session = streaming_session(8);
    let action = session.step(chunk(&[b'o', b'k', 0xff, b'\n']));
    assert_eq!(offered(&action), Some("\"ok\u{fffd}\"".to_string()));
}

#[test]
fn outcomes_have_names() {
    assert_eq!(Outcome::Completed.name(), "Completed");
    assert_eq!(Outcome::Failed(RelayError::SourceUnavailable).name(), "SourceUnavailable");
    assert_eq!(Outcome::Failed(RelayError::SourceReadError).name(), "SourceReadError");
    assert_eq!(Outcome::ClientDisconnected.name(), "ClientDisconnected");
}

#[test]
fn waiting_frames_stay_bounded_when_reading_as_told() {
    let bound = 2;
    let most = 3;
    let mut session = streaming_session(bound);
    let chunks: Vec<&[u8]> = vec![b"a\nb\nc\n", b"d", b"e\nf\n", b"\n\n\n", b"g\nh", b"i\n"];
    let mut fed = 0;
    let mut taken: Vec<String> = Vec::new();
    while !session.is_finished() {
        assert!(session.queued() <= bound + most + 1);
        let action = session.action();
        if wants_read(&action) {
            assert!(session.queued() <= bound);
            if fed < chunks.len() {
                session.step(chunk(chunks[fed]));
                fed += 1;
                assert!(session.queued() <= bound + most);
            } else {
                session.step(SessionEvent::SourceClosed);
            }
        } else if let Some(payload) = offered(&action) {
            taken.push(payload);
            session.step(SessionEvent::FrameDelivered);
        }
    }
    assert_eq!(session.outcome(), Some(Outcome::Completed));
    assert_eq!(
        taken,
        vec!["\"a\"", "\"b\"", "\"c\"", "\"de\"", "\"f\"", "\"\"", "\"\"", "\"\"", "\"g\"", "\"hi\""]
    );
}
