use hermes_dms::ctl::{
    new_request_id, on_status_message, stage_failed, ChatWatch, CtlStep, Stage,
};
use hermes_dms::ipc::DaemonMessage;

fn delta(id: &str, content: &str) -> Option<DaemonMessage> {
    Some(DaemonMessage::Delta { request_id: id.into(), content: content.into() })
}

fn complete(id: &str, content: &str) -> Option<DaemonMessage> {
    Some(DaemonMessage::ChatComplete {
        request_id: id.into(),
        content: content.into(),
        usage: None,
    })
}

fn error(id: Option<&str>) -> Option<DaemonMessage> {
    Some(DaemonMessage::Error { request_id: id.map(String::from), message: "boom".into() })
}

#[test]
fn streamed_reply_is_printed_once() {
    let mut w = ChatWatch::new("r".into());
    assert_eq!(w.on_message(delta("r", "Hel")), CtlStep::Print("Hel".into()));
    assert_eq!(w.on_message(delta("x", "no")), CtlStep::Ignore);
    assert_eq!(w.on_message(delta("r", "lo")), CtlStep::Print("lo".into()));
    assert_eq!(w.on_message(complete("r", "Hello")), CtlStep::Finish("\n".into()));
}

#[test]
fn unstreamed_reply_is_printed_at_the_end() {
    let mut w = ChatWatch::new("r".into());
    let draft = DaemonMessage::Draft { request_id: "r".into(), content: "He".into() };
    assert_eq!(w.on_message(Some(draft)), CtlStep::Ignore);
    assert_eq!(w.on_message(delta("r", "")), CtlStep::Print(String::new()));
    assert_eq!(w.on_message(complete("x", "other")), CtlStep::Ignore);
    assert_eq!(w.on_message(complete("r", "Hello")), CtlStep::Finish("Hello\n".into()));
    let mut w = ChatWatch::new("r".into());
    assert_eq!(w.on_message(complete("r", "")), CtlStep::Finish("\n".into()));
}

#[test]
fn chat_errors() {
    let mut w = ChatWatch::new("r".into());
    assert_eq!(w.on_message(error(Some("x"))), CtlStep::Ignore);
    assert_eq!(w.on_message(error(Some("r"))), CtlStep::Fail("boom".into()));
    assert_eq!(w.on_message(error(None)), CtlStep::Fail("boom".into()));
    assert_eq!(
        w.on_message(None),
        CtlStep::Fail("daemon closed the connection before completing".into())
    );
}

#[test]
fn status_query() {
    let status = DaemonMessage::Status {
        hermes: "connected".into(),
        daemon: "ready".into(),
        request_id: None,
    };
    assert_eq!(
        on_status_message(Some(status)),
        CtlStep::Finish("daemon: ready\nhermes: connected\n".into())
    );
    assert_eq!(on_status_message(error(Some("x"))), CtlStep::Fail("boom".into()));
    assert_eq!(on_status_message(delta("x", "y")), CtlStep::Ignore);
    assert_eq!(
        on_status_message(None),
        CtlStep::Fail("daemon closed the connection".into())
    );
}

#[test]
fn failed_stages_in_words() {
    assert_eq!(stage_failed(Stage::Connect, "e"), "connecting to daemon socket: e");
    assert_eq!(stage_failed(Stage::SendChat, "e"), "sending chat: e");
    assert_eq!(stage_failed(Stage::Subscribe, "e"), "subscribing: e");
    assert_eq!(stage_failed(Stage::RequestStatus, "e"), "requesting status: e");
}

/// Request ids are version 4 UUIDs in hyphenated lower-case notation.
#[test]
fn request_ids_are_uuids() {
    let a = new_request_id();
    assert_ne!(a, new_request_id());
    let parsed = uuid::Uuid::parse_str(&a).unwrap();
    assert_eq!(parsed.to_string(), a);
    assert_eq!(parsed.get_version_num(), 4);
    let groups: Vec<usize> = a.split('-').map(str::len).collect();
    assert_eq!(groups, vec![8, 4, 4, 4, 12]);
}
