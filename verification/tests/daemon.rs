use hermes_dms::bridge::{BridgeHub, FromAdapter, ToAdapter};
use hermes_dms::config::{Config, ListenAddr};
use hermes_dms::daemon::replies::{messages_reply, sessions_reply, Wanted};
use hermes_dms::daemon::turn::{TurnEvent, TurnStep};
use hermes_dms::daemon::{hermes_client, picker_client, Action, ChatTurn, DaemonHandler};
use hermes_dms::hermes::HermesError;
use hermes_dms::ipc::{ClientMessage, DaemonMessage, ModelInfo, SessionInfo};
use hermes_dms::ollama::OllamaError;
use tokio::sync::mpsc::error::TryRecvError;
use tokio::sync::mpsc::{unbounded_channel, UnboundedSender};

type Hub = BridgeHub<UnboundedSender<ToAdapter>, UnboundedSender<FromAdapter>>;

fn chat(session_id: Option<&str>) -> ClientMessage {
    ClientMessage::Chat {
        request_id: "r1".into(),
        session_id: session_id.map(String::from),
        message: "hi".into(),
    }
}

fn error(message: &str) -> DaemonMessage {
    DaemonMessage::Error { request_id: Some("r1".into()), message: message.into() }
}

fn draft(chat_id: &str, text: &str) -> FromAdapter {
    FromAdapter::Draft { chat_id: chat_id.into(), text: text.into() }
}

fn send(chat_id: &str, text: &str) -> FromAdapter {
    FromAdapter::Send { chat_id: chat_id.into(), text: text.into() }
}

/// Runs a chat over `hub`, whose adapter answers with `frames`: what the
/// adapter got, and what the client got.
fn run_chat(
    hub: &mut Hub,
    handler: &mut DaemonHandler,
    msg: ClientMessage,
    frames: impl Fn(&str) -> Vec<FromAdapter>,
) -> (ToAdapter, Vec<DaemonMessage>) {
    let (atx, mut inbound) = unbounded_channel();
    hub.set_adapter(1, atx);
    let (turn, message) = match handler.handle(msg) {
        Action::StartChat { turn, message } => (turn, message),
        other => panic!("expected a chat, got {other:?}"),
    };
    let (tx, mut rx) = unbounded_channel();
    hub.open_chat(&turn.chat_id, 7, tx);
    let sent = match hub.send_inbound(&turn.chat_id, &message, &turn.request_id) {
        Some((tx, frame)) => tx.send(frame).is_ok(),
        None => false,
    };
    assert_eq!(turn.opening(sent), None);
    for frame in frames(&turn.chat_id) {
        if let Some((tx, frame)) = hub.dispatch(frame) {
            tx.send(frame).unwrap();
        }
    }
    let mut replies = Vec::new();
    loop {
        let event = match rx.try_recv() {
            Ok(frame) => TurnEvent::Frame(frame),
            Err(_) => TurnEvent::Disconnected,
        };
        let step = turn.on_event(handler.has_bus(), event);
        replies.extend(step.reply);
        if step.done {
            break;
        }
    }
    hub.close_chat(&turn.chat_id, 7);
    (inbound.try_recv().unwrap(), replies)
}

/// With a connected desktop adapter, a panel chat (has a chat id) routes
/// through the bridge and the adapter's draft/send frames come back as
/// Draft/ChatComplete.
#[test]
fn panel_chat_routes_through_bridge_when_adapter_connected() {
    let mut hub = Hub::new();
    let mut handler = DaemonHandler::new(true, false, false);
    let (inbound, replies) = run_chat(&mut hub, &mut handler, chat(Some("desktop:1")), |id| {
        vec![draft(id, "He"), send(id, "Hello there")]
    });
    // The adapter receives the inbound message for this chat id.
    match inbound {
        ToAdapter::Inbound { chat_id, text, .. } => {
            assert_eq!(chat_id, "desktop:1");
            assert_eq!(text, "hi");
        }
    }
    assert!(matches!(&replies[0], DaemonMessage::Draft { content, .. } if content == "He"));
    assert!(
        matches!(&replies[1], DaemonMessage::ChatComplete { content, .. } if content == "Hello there")
    );
    assert_eq!(replies.len(), 2);
}

/// A launcher chat (no session id) also routes through the bridge: the daemon
/// mints an ephemeral `desktop_` chat_id and relays the adapter's final send
/// as ChatComplete.
#[test]
fn launcher_chat_routes_through_bridge_with_minted_chat_id() {
    let mut hub = Hub::new();
    let mut handler = DaemonHandler::new(true, false, false);
    let (inbound, replies) = run_chat(&mut hub, &mut handler, chat(None), |id| {
        vec![send(id, "Hello there")]
    });
    match inbound {
        ToAdapter::Inbound { chat_id, text, .. } => {
            assert_eq!(text, "hi");
            assert!(chat_id.starts_with("desktop_"), "minted chat_id: {chat_id}");
        }
    }
    assert!(
        matches!(&replies[0], DaemonMessage::ChatComplete { content, .. } if content == "Hello there")
    );
}

/// An adapter that disconnects in the middle of a turn ends the chat with an
/// error, also where another has taken its place before.
#[test]
fn chat_is_answered_when_the_adapter_goes() {
    for superseded in [false, true] {
        let mut hub = Hub::new();
        let (atx, _arx) = unbounded_channel();
        hub.set_adapter(1, atx);
        let (tx, mut rx) = unbounded_channel();
        hub.open_chat("c", 7, tx);
        let (itx, frame) = hub.send_inbound("c", "hi", "r1").unwrap();
        itx.send(frame).unwrap();
        let (stx, frame) = hub.dispatch(draft("c", "He")).unwrap();
        stx.send(frame).unwrap();
        if superseded {
            let (btx, _brx) = unbounded_channel();
            hub.set_adapter(2, btx);
        }
        hub.clear_adapter(1);
        assert_eq!(hub.is_connected(), superseded);
        let mut replies = Vec::new();
        loop {
            let event = match rx.try_recv() {
                Ok(frame) => TurnEvent::Frame(frame),
                Err(TryRecvError::Disconnected) => TurnEvent::Disconnected,
                Err(TryRecvError::Empty) => panic!("the chat would wait for ever"),
            };
            let step = turn(false).on_event(false, event);
            replies.extend(step.reply);
            if step.done {
                break;
            }
        }
        assert_eq!(replies.len(), 2);
        assert_eq!(replies[1], error("desktop platform disconnected"));
    }
}

fn turn(notify_on_complete: bool) -> ChatTurn {
    ChatTurn {
        request_id: "r1".into(),
        chat_id: "c".into(),
        notify_on_complete,
    }
}

fn ended(message: &str) -> TurnStep {
    TurnStep { notification: None, reply: Some(error(message)), done: true }
}

#[test]
fn offline_adapter_ends_the_chat() {
    assert_eq!(turn(false).opening(false), Some(error("desktop platform offline")));
    assert_eq!(turn(false).opening(true), None);
}

#[test]
fn chat_ends_on_cancel_and_disconnect() {
    assert_eq!(turn(true).on_event(true, TurnEvent::Cancelled), ended("cancelled"));
    assert_eq!(
        turn(true).on_event(true, TurnEvent::Disconnected),
        ended("desktop platform disconnected")
    );
}

#[test]
fn typing_is_swallowed() {
    let frame = FromAdapter::Typing { chat_id: "c".into() };
    assert_eq!(
        turn(true).on_event(true, TurnEvent::Frame(frame)),
        TurnStep { notification: None, reply: None, done: false }
    );
}

#[test]
fn only_launcher_replies_are_notified() {
    let step = |launcher: bool, bus: bool, text: &str| {
        turn(launcher).on_event(bus, TurnEvent::Frame(send("c", text)))
    };
    assert_eq!(step(true, true, "hello").notification.unwrap().body, "hello");
    assert_eq!(step(true, false, "hello").notification, None);
    assert_eq!(step(false, true, "hello").notification, None);
    assert_eq!(step(true, true, "").notification, None);
    assert!(step(true, true, "").done);
    let drafted = turn(true).on_event(true, TurnEvent::Frame(draft("c", "hello")));
    assert_eq!(drafted.notification, None);
}

#[test]
fn selected_model_is_shown_and_kept() {
    let mut h = DaemonHandler::new(false, false, true);
    let create = |title: Option<&str>| ClientMessage::SessionCreate {
        request_id: "r1".into(),
        title: title.map(String::from),
    };
    let created = |title: Option<&str>, model: Option<&str>| {
        Action::Reply(DaemonMessage::SessionCreated {
            request_id: "r1".into(),
            session_id: "fresh".into(),
            title: title.map(String::from),
            model: model.map(String::from),
        })
    };
    assert_eq!(h.handle_with(create(Some("t")), "fresh".into()), created(Some("t"), None));
    let set = ClientMessage::SetModel { request_id: "s".into(), model: "gpt-oss".into() };
    assert_eq!(h.handle_with(set, "x".into()), Action::Nothing);
    h.handle(ClientMessage::Status { request_id: "q".into() });
    assert_eq!(h.handle_with(create(None), "fresh".into()), created(None, Some("gpt-oss")));

    let models = vec![
        ModelInfo { id: "gpt-oss".into(), loaded: false, active: false },
        ModelInfo { id: "gemma".into(), loaded: true, active: true },
    ];
    assert_eq!(
        h.models_reply("r1".into(), Ok(models)),
        DaemonMessage::Models {
            request_id: "r1".into(),
            data: vec![
                ModelInfo { id: "gpt-oss".into(), loaded: false, active: true },
                ModelInfo { id: "gemma".into(), loaded: true, active: false },
            ]
        }
    );
    assert_eq!(
        h.models_reply("r1".into(), Err(OllamaError::Status { status: 502 })),
        error("ollama-router returned 502")
    );
}

#[test]
fn created_sessions_get_minted_ids() {
    let mut h = DaemonHandler::new(false, false, false);
    let msg = ClientMessage::SessionCreate { request_id: "r1".into(), title: None };
    match h.handle(msg) {
        Action::Reply(DaemonMessage::SessionCreated { session_id, .. }) => {
            assert!(session_id.starts_with("desktop_"));
        }
        other => panic!("unexpected {other:?}"),
    }
}

#[test]
fn requests_lead_to_fetches() {
    let mut h = DaemonHandler::new(false, false, true);
    let id = || "r1".to_string();
    let mut act = |msg| h.handle(msg);
    assert_eq!(
        act(ClientMessage::SessionList { request_id: id() }),
        Action::FetchSessions { request_id: id(), wanted: Wanted::Desktop }
    );
    assert_eq!(
        act(ClientMessage::SessionResume { request_id: id(), session_id: "s".into() }),
        Action::FetchSessions { request_id: id(), wanted: Wanted::Only("s".into()) }
    );
    assert_eq!(
        act(ClientMessage::SessionMessages { request_id: id(), session_id: "s".into() }),
        Action::FetchMessages { request_id: id(), session_id: "s".into() }
    );
    assert_eq!(
        act(ClientMessage::ModelList { request_id: id() }),
        Action::FetchModels { request_id: id() }
    );
    assert_eq!(act(ClientMessage::Subscribe { request_id: None }), Action::Nothing);
    assert_eq!(act(ClientMessage::Cancel { request_id: id() }), Action::Nothing);
}

#[test]
fn model_picker_needs_a_token() {
    let mut h = DaemonHandler::new(false, false, false);
    assert_eq!(
        h.handle(ClientMessage::ModelList { request_id: "r1".into() }),
        Action::Reply(error("model picker not configured"))
    );

    let config = |token: Option<&str>| Config {
        hermes_api_url: "http://h/".into(),
        hermes_api_key: "k".into(),
        mcp_auth_token: None,
        mcp_listen_addr: ListenAddr { addr: "127.0.0.1:1".into(), ip: "127.0.0.1".into() },
        socket_path: b"/s".to_vec(),
        ollama_router_url: "http://o/".into(),
        ollama_router_token: token.map(String::from),
    };
    assert_eq!(picker_client(&config(None)), None);
    let req = picker_client(&config(Some("t"))).unwrap().list_models();
    assert_eq!(req.url, "http://o/v1/models");
    assert_eq!(req.bearer.as_deref(), Some("t"));
    let req = hermes_client(&config(None)).list_sessions();
    assert_eq!(req.url, "http://h/api/sessions");
    assert_eq!(req.bearer.as_deref(), Some("k"));
}

fn status(hermes: &str, request_id: Option<&str>) -> DaemonMessage {
    DaemonMessage::Status {
        hermes: hermes.into(),
        daemon: "ready".into(),
        request_id: request_id.map(String::from),
    }
}

#[test]
fn status_follows_health() {
    let mut h = DaemonHandler::new(false, false, false);
    let events: Vec<Option<DaemonMessage>> = [false, true, true, false, true]
        .into_iter()
        .map(|up| h.observe_health(up))
        .collect();
    assert_eq!(
        events,
        vec![
            None,
            Some(status("connected", None)),
            None,
            Some(status("disconnected", None)),
            Some(status("connected", None)),
        ]
    );
    assert_eq!(
        h.handle(ClientMessage::Status { request_id: "q".into() }),
        Action::Reply(status("connected", Some("q")))
    );
    h.observe_health(false);
    assert_eq!(
        h.handle(ClientMessage::Status { request_id: "q".into() }),
        Action::Reply(status("disconnected", Some("q")))
    );
}

fn session(id: &str, source: Option<&str>) -> SessionInfo {
    SessionInfo { id: id.into(), title: None, source: source.map(String::from) }
}

#[test]
fn switcher_lists_desktop_sessions() {
    let all = vec![
        session("a", Some("desktop")),
        session("b", Some("telegram")),
        session("c", None),
        session("d", Some("desktop")),
    ];
    assert_eq!(
        sessions_reply("r1".into(), Wanted::Desktop, Ok(all)),
        DaemonMessage::Sessions {
            request_id: "r1".into(),
            data: vec![session("a", Some("desktop")), session("d", Some("desktop"))],
        }
    );
}

#[test]
fn resume_finds_one_session_or_errors() {
    let all = || vec![session("a", None), session("b", Some("telegram")), session("b", None)];
    assert_eq!(
        sessions_reply("r1".into(), Wanted::Only("b".into()), Ok(all())),
        DaemonMessage::Sessions {
            request_id: "r1".into(),
            data: vec![session("b", Some("telegram"))],
        }
    );
    assert_eq!(
        sessions_reply("r1".into(), Wanted::Only("zzz".into()), Ok(all())),
        error("session has been reset")
    );
    assert_eq!(
        sessions_reply("r1".into(), Wanted::Desktop, Err(HermesError::Auth)),
        error("authentication failed (401): check the Hermes API key")
    );
}

#[test]
fn history_is_passed_on() {
    let data = vec!["{\"role\":\"user\"}".to_string()];
    assert_eq!(
        messages_reply("r1".into(), "s".into(), Ok(data.clone())),
        DaemonMessage::Messages { request_id: "r1".into(), session_id: "s".into(), data }
    );
    assert_eq!(
        messages_reply("r1".into(), "s".into(), Err(HermesError::SessionNotFound)),
        error("session not found (404)")
    );
}
