use turtle_canvas::handshake::{
    connect_session, encode_oneshot_name, ClientSession, ConnectError, SessionEvent, SessionPhase,
};

#[test]
fn connect_succeeds_only_with_both_steps() {
    let session = connect_session(true, true).expect("both steps succeeded");
    assert_eq!(session.phase, SessionPhase::Ready);
    assert!(session.send_allowed());
}

#[test]
fn connect_reports_failed_name_delivery() {
    for remote_connected in [false, true] {
        match connect_session(false, remote_connected) {
            Err(ConnectError::NameNotDelivered) => {}
            _ => panic!("a failed delivery must surface as NameNotDelivered"),
        }
    }
}

#[test]
fn connect_reports_incomplete_handshake() {
    match connect_session(true, false) {
        Err(ConnectError::HandshakeIncomplete) => {}
        _ => panic!("a handshake the remote never completed must surface as HandshakeIncomplete"),
    }
}

#[test]
fn encodes_name_plus_single_newline() {
    assert_eq!(encode_oneshot_name("channel-7"), b"channel-7\n");
}

#[test]
fn encodes_empty_name_as_bare_newline() {
    assert_eq!(encode_oneshot_name(""), b"\n");
}

#[test]
fn encodes_non_ascii_name_as_utf8() {
    let line = encode_oneshot_name("kanal-\u{00e9}");
    let mut expected = "kanal-\u{00e9}".as_bytes().to_vec();
    expected.push(b'\n');
    assert_eq!(line, expected);
}

#[test]
fn fresh_session_allows_no_traffic() {
    let session = ClientSession::new();
    assert_eq!(session.phase, SessionPhase::Created);
    assert!(!session.send_allowed());
    assert!(!session.recv_allowed());
}

#[test]
fn recv_not_ready_before_name_delivery_completes() {
    let mut session = ClientSession::new();
    // the server cannot connect back before the name reached it: the event
    // moves nothing while the session is still in its created phase
    session.record(SessionEvent::ConnectionReady);
    assert_eq!(session.phase, SessionPhase::Created);
    assert!(!session.recv_allowed());
}

#[test]
fn handshake_in_order_opens_the_session() {
    let mut session = ClientSession::new();
    session.record(SessionEvent::NameDelivered);
    assert_eq!(session.phase, SessionPhase::NameSent);
    assert!(!session.send_allowed());
    session.record(SessionEvent::ConnectionReady);
    assert_eq!(session.phase, SessionPhase::Ready);
    assert!(session.send_allowed());
    assert!(session.recv_allowed());
}

#[test]
fn server_exit_ends_the_session_for_good() {
    let mut session = ClientSession::new();
    session.record(SessionEvent::NameDelivered);
    session.record(SessionEvent::ConnectionReady);
    session.record(SessionEvent::ServerExited);
    assert_eq!(session.phase, SessionPhase::Ended);
    assert!(!session.send_allowed());
    assert!(!session.recv_allowed());
    // whatever is observed later, the session stays ended
    session.record(SessionEvent::NameDelivered);
    session.record(SessionEvent::ConnectionReady);
    assert_eq!(session.phase, SessionPhase::Ended);
    assert!(!session.send_allowed());
    assert!(!session.recv_allowed());
}

#[test]
fn name_delivered_twice_does_not_advance_further() {
    let mut session = ClientSession::new();
    session.record(SessionEvent::NameDelivered);
    session.record(SessionEvent::NameDelivered);
    assert_eq!(session.phase, SessionPhase::NameSent);
    assert!(!session.send_allowed());
}
