use hermes_dms::ipc::client::{next_message, relay_line, Received, RelayStep};
use hermes_dms::ipc::lines::{frame, holds_message};
use hermes_dms::ipc::protocol::status;
use hermes_dms::ipc::server::{
    malformed, prepare_socket_path, Inbound, LineStep, Outgoing, SocketStep, WriteStep,
};
use hermes_dms::ipc::{ClientMessage, Connection, DaemonMessage};
use tokio_util::sync::CancellationToken;

fn connection() -> Connection<CancellationToken> {
    Connection::new()
}

fn status_request(id: &str) -> ClientMessage {
    ClientMessage::Status { request_id: id.into() }
}

/// Stub handler: echoes a chat as a delta + completion, answers status.
fn echo(msg: ClientMessage) -> Vec<DaemonMessage> {
    match msg {
        ClientMessage::Chat { request_id, message, .. } => vec![
            DaemonMessage::Delta { request_id: request_id.clone(), content: message.clone() },
            DaemonMessage::ChatComplete { request_id, content: message, usage: None },
        ],
        ClientMessage::Status { request_id } => vec![DaemonMessage::Status {
            hermes: status::CONNECTED.into(),
            daemon: status::READY.into(),
            request_id: Some(request_id),
        }],
        _ => Vec::new(),
    }
}

/// What the connection sends back for a line.
fn serve(
    c: &mut Connection<CancellationToken>,
    line: &str,
    parsed: Result<ClientMessage, String>,
) -> Vec<DaemonMessage> {
    match c.on_line(line, parsed) {
        LineStep::Skip => Vec::new(),
        LineStep::Answer(m) => vec![m],
        LineStep::Take(Inbound::Request { request_id, msg }) => {
            c.start(&request_id, 1, CancellationToken::new());
            let out = echo(msg);
            c.finish(&request_id, 1);
            out
        }
        LineStep::Take(_) => Vec::new(),
    }
}

#[test]
fn chat_round_trip() {
    let mut c = connection();
    let chat = ClientMessage::Chat {
        request_id: "r1".into(),
        session_id: None,
        message: "hello".into(),
    };
    let out = serve(&mut c, "{\"type\":\"chat\"}", Ok(chat));
    assert!(matches!(&out[0], DaemonMessage::Delta { content, .. } if content == "hello"));
    assert!(matches!(&out[1], DaemonMessage::ChatComplete { content, .. } if content == "hello"));
}

#[test]
fn malformed_json_gets_error_not_crash() {
    let mut c = connection();
    let out = serve(&mut c, "{not json}", Err("key must be a string".into()));
    assert!(matches!(out[0], DaemonMessage::Error { .. }));
    assert_eq!(
        out[0],
        DaemonMessage::Error {
            request_id: None,
            message: "malformed request: key must be a string".into()
        }
    );
    // The connection is still usable afterwards.
    let out = serve(&mut c, "{\"type\":\"status\"}", Ok(status_request("s1")));
    assert!(matches!(out[0], DaemonMessage::Status { .. }));
}

#[test]
fn only_subscribers_get_broadcasts() {
    let mut sub = connection();
    let mut plain = connection();
    sub.receive(ClientMessage::Subscribe { request_id: None });
    assert!(sub.takes_broadcasts());
    assert!(!plain.takes_broadcasts());

    let toast = DaemonMessage::Toast {
        title: "t".into(),
        body: "b".into(),
        icon: None,
    };
    assert!(matches!(
        sub.on_outgoing(Outgoing::Broadcast(toast.clone())),
        WriteStep::Write(DaemonMessage::Toast { .. })
    ));
    assert_eq!(plain.on_outgoing(Outgoing::Broadcast(toast)), WriteStep::Pass);

    // The non-subscriber does not receive the toast; a subsequent status
    // request is the first thing it reads.
    let out = serve(&mut plain, "{\"type\":\"status\"}", Ok(status_request("s")));
    assert!(matches!(out[0], DaemonMessage::Status { .. }));
    assert!(!plain.takes_broadcasts());

    // Nothing takes a subscription back.
    serve(&mut sub, "{\"type\":\"status\"}", Ok(status_request("s")));
    sub.receive(ClientMessage::Cancel { request_id: "s".into() });
    assert!(sub.takes_broadcasts());
}

#[test]
fn cancel_interrupts_in_flight_request() {
    let mut c = connection();
    let token = CancellationToken::new();
    let request = ClientMessage::SessionList { request_id: "blk".into() };
    match c.receive(request.clone()) {
        Inbound::Request { request_id, msg } => {
            assert_eq!(request_id.as_deref(), Some("blk"));
            assert_eq!(msg, request);
            c.start(&request_id, 1, token.clone());
        }
        other => panic!("expected a request, got {other:?}"),
    }
    // Not completed yet; cancel it.
    match c.receive(ClientMessage::Cancel { request_id: "blk".into() }) {
        Inbound::Cancel(id) => c.cancel_target(&id).unwrap().cancel(),
        other => panic!("expected a cancel, got {other:?}"),
    }
    assert!(token.is_cancelled());
}

#[test]
fn finished_and_unknown_requests_cannot_be_cancelled() {
    let mut c = connection();
    let id = Some("a".to_string());
    c.start(&id, 1, CancellationToken::new());
    c.start(&Some("b".to_string()), 2, CancellationToken::new());
    assert!(c.cancel_target("zzz").is_none());
    c.finish(&id, 1);
    assert!(c.cancel_target("a").is_none());
    assert!(c.cancel_target("b").is_some());
    c.start(&None, 3, CancellationToken::new());
    c.finish(&None, 3);
    assert!(c.cancel_target("b").is_some());
}

#[test]
fn same_id_twice_keeps_the_later_token() {
    let mut c = connection();
    let (one, two) = (CancellationToken::new(), CancellationToken::new());
    let id = Some("a".to_string());
    c.start(&id, 1, one.clone());
    c.start(&id, 2, two.clone());
    // The first is done; the second is still in flight.
    c.finish(&id, 1);
    c.cancel_target("a").unwrap().cancel();
    assert!(!one.is_cancelled());
    assert!(two.is_cancelled());
}

#[test]
fn blank_lines_are_skipped() {
    let mut c = connection();
    for line in ["", "  \t ", "\u{2003}\r"] {
        assert_eq!(c.on_line(line, Err("EOF".into())), LineStep::Skip);
        assert!(!holds_message(line));
        assert_eq!(next_message(Some(line), Err("EOF".into())), Received::Skip);
        assert_eq!(relay_line(line, Err("EOF".into())), RelayStep::Skip);
    }
    assert!(holds_message(" x "));
}

#[test]
fn stale_socket_is_replaced() {
    // A leftover file with no listener behind it.
    assert_eq!(
        prepare_socket_path(true, false, b"/tmp/hermes-dms-stale.sock"),
        SocketStep::RemoveStale
    );
}

#[test]
fn live_socket_is_not_clobbered() {
    assert_eq!(
        prepare_socket_path(true, true, b"/run/x.sock"),
        SocketStep::InUse("a hermes-dms daemon is already listening on /run/x.sock".into())
    );
    assert_eq!(prepare_socket_path(false, false, b"/run/x.sock"), SocketStep::Bind);
}

#[test]
fn frames_end_in_a_newline() {
    assert_eq!(frame(b"{}".to_vec()), b"{}\n");
    assert_eq!(frame(Vec::new()), b"\n");
    let wire: Vec<u8> = [frame(b"{\"a\":1}".to_vec()), frame(b"{}".to_vec())].concat();
    let text = String::from_utf8(wire).unwrap();
    let lines: Vec<&str> = text.lines().collect();
    assert_eq!(lines, vec!["{\"a\":1}", "{}"]);
}

#[test]
fn writing_side_outlives_broadcasts() {
    let c = connection();
    let m = malformed("e");
    assert_eq!(c.on_outgoing(Outgoing::Direct(m.clone())), WriteStep::Write(m));
    assert_eq!(c.on_outgoing(Outgoing::Lagged(3)), WriteStep::NoteLag(3));
    assert_eq!(c.on_outgoing(Outgoing::BroadcastsOver), WriteStep::StopBroadcasts);
    assert_eq!(c.on_outgoing(Outgoing::Finished), WriteStep::End);
}

#[test]
fn correlation_ids() {
    let id = || "x".to_string();
    let all = vec![
        ClientMessage::Chat { request_id: id(), session_id: None, message: "m".into() },
        ClientMessage::SessionCreate { request_id: id(), title: None },
        ClientMessage::SessionList { request_id: id() },
        ClientMessage::SessionMessages { request_id: id(), session_id: "s".into() },
        ClientMessage::SessionResume { request_id: id(), session_id: "s".into() },
        ClientMessage::Cancel { request_id: id() },
        ClientMessage::Status { request_id: id() },
        ClientMessage::ModelList { request_id: id() },
        ClientMessage::SetModel { request_id: id(), model: "m".into() },
        ClientMessage::Subscribe { request_id: Some(id()) },
    ];
    for msg in all {
        assert_eq!(msg.request_id(), Some("x"));
    }
    assert_eq!(ClientMessage::Subscribe { request_id: None }.request_id(), None);
}

#[test]
fn client_reads_messages() {
    let m = malformed("e");
    assert_eq!(next_message(Some("{}"), Ok(m.clone())), Received::Message(m.clone()));
    assert_eq!(
        next_message(Some("{}"), Err("missing type".into())),
        Received::Malformed("missing type".into())
    );
    assert_eq!(next_message(None, Ok(m)), Received::End);
}

/// A framed message is read back over blank lines, and what follows is left.
#[test]
fn written_message_is_read_back() {
    let m = malformed("e");
    let wire: Vec<u8> = [
        frame(b"".to_vec()),
        frame(b" \t".to_vec()),
        frame(b"{\"type\":\"error\"}".to_vec()),
        frame(b"rest".to_vec()),
    ]
    .concat();
    let text = String::from_utf8(wire).unwrap();
    let mut lines = text.lines();
    let parse = |line: Option<&str>| match line {
        Some("{\"type\":\"error\"}") => Ok(m.clone()),
        _ => Err("expected value".to_string()),
    };
    let mut next = || loop {
        let line = lines.next();
        match next_message(line, parse(line)) {
            Received::Skip => {}
            got => return got,
        }
    };
    assert_eq!(next(), Received::Message(m.clone()));
    assert_eq!(next(), Received::Malformed("expected value".into()));
    assert_eq!(next(), Received::End);
}

#[test]
fn relay_passes_over_malformed_lines() {
    let msg = status_request("s");
    assert_eq!(relay_line("{..}", Ok(msg.clone())), RelayStep::Send(msg));
    assert_eq!(
        relay_line("nope", Err("expected ident".into())),
        RelayStep::Ignore("ignoring malformed stdin line: expected ident".into())
    );
}

#[test]
fn status_values() {
    assert_eq!(status::CONNECTED, "connected");
    assert_eq!(status::DISCONNECTED, "disconnected");
    assert_eq!(status::READY, "ready");
    assert_eq!(status::STARTING, "starting");
}
