use hermes_dms::bridge::{AdapterEvent, AdapterStep, BridgeHub, FromAdapter, ToAdapter};
use tokio::sync::mpsc::error::TryRecvError;
use tokio::sync::mpsc::{unbounded_channel, UnboundedReceiver, UnboundedSender};

type Hub = BridgeHub<UnboundedSender<ToAdapter>, UnboundedSender<FromAdapter>>;

fn push(hub: &mut Hub, chat_id: &str, text: &str, message_id: &str) -> bool {
    match hub.send_inbound(chat_id, text, message_id) {
        Some((tx, frame)) => tx.send(frame).is_ok(),
        None => false,
    }
}

fn dispatch(hub: &Hub, frame: FromAdapter) -> bool {
    match hub.dispatch(frame) {
        Some((tx, frame)) => tx.send(frame).is_ok(),
        None => false,
    }
}

fn open(hub: &mut Hub, chat_id: &str) -> UnboundedReceiver<FromAdapter> {
    open_turn(hub, chat_id, 1)
}

fn open_turn(hub: &mut Hub, chat_id: &str, turn: u64) -> UnboundedReceiver<FromAdapter> {
    let (tx, rx) = unbounded_channel();
    hub.open_chat(chat_id, turn, tx);
    rx
}

/// A stand-in for an adapter that connects under the number `id`.
fn connect(hub: &mut Hub, id: u64) -> UnboundedReceiver<ToAdapter> {
    let (tx, rx) = unbounded_channel();
    hub.set_adapter(id, tx);
    rx
}

/// The hub let go of the route.
fn is_gone(rx: &mut UnboundedReceiver<FromAdapter>) -> bool {
    matches!(rx.try_recv(), Err(TryRecvError::Disconnected))
}

fn draft(chat_id: &str, text: &str) -> FromAdapter {
    FromAdapter::Draft { chat_id: chat_id.into(), text: text.into() }
}

#[test]
fn send_inbound_false_without_adapter() {
    let mut hub = Hub::new();
    assert!(!hub.is_connected());
    assert!(!push(&mut hub, "desktop:1", "hi", "m1"));
}

#[test]
fn inbound_reaches_adapter_and_responses_route_to_chat() {
    let mut hub = Hub::new();
    // Simulate a connected adapter.
    let mut arx = connect(&mut hub, 1);
    assert!(hub.is_connected());

    // A panel chat opens a route and sends a message.
    let mut chat = open(&mut hub, "desktop:1");
    assert!(push(&mut hub, "desktop:1", "hello", "m1"));
    assert_eq!(
        arx.try_recv().unwrap(),
        ToAdapter::Inbound {
            chat_id: "desktop:1".into(),
            text: "hello".into(),
            message_id: "m1".into(),
        }
    );

    // Adapter streams a draft then a final send; both route to this chat.
    dispatch(&hub, draft("desktop:1", "He"));
    dispatch(
        &hub,
        FromAdapter::Send {
            chat_id: "desktop:1".into(),
            text: "Hello there".into(),
        },
    );
    assert_eq!(
        chat.try_recv().unwrap(),
        FromAdapter::Draft {
            chat_id: "desktop:1".into(),
            text: "He".into()
        }
    );
    assert_eq!(
        chat.try_recv().unwrap(),
        FromAdapter::Send {
            chat_id: "desktop:1".into(),
            text: "Hello there".into()
        }
    );

    // A frame for an unrouted chat is dropped without panicking.
    assert!(!dispatch(
        &hub,
        FromAdapter::Typing {
            chat_id: "desktop:other".into(),
        }
    ));
    hub.close_chat("desktop:1", 1);
}

#[test]
fn closed_chat_is_unrouted() {
    let mut hub = Hub::new();
    let mut one = open(&mut hub, "a");
    let mut two = open(&mut hub, "b");
    hub.close_chat("a", 1);
    assert!(!dispatch(&hub, draft("a", "x")));
    assert!(dispatch(&hub, draft("b", "y")));
    assert!(one.try_recv().is_err());
    assert_eq!(two.try_recv().unwrap(), draft("b", "y"));
    // Closing twice, and closing what was never open, does nothing.
    hub.close_chat("a", 1);
    hub.close_chat("never", 1);
    assert!(dispatch(&hub, draft("b", "z")));
}

#[test]
fn reopening_replaces_the_route() {
    let mut hub = Hub::new();
    let mut first = open_turn(&mut hub, "a", 1);
    let mut second = open_turn(&mut hub, "a", 2);
    assert!(is_gone(&mut first));
    assert!(dispatch(&hub, draft("a", "x")));
    assert_eq!(second.try_recv().unwrap(), draft("a", "x"));

    // The end of the turn that lost its route takes nothing from the other.
    hub.close_chat("a", 1);
    assert!(dispatch(&hub, draft("a", "y")));
    assert_eq!(second.try_recv().unwrap(), draft("a", "y"));
    hub.close_chat("a", 2);
    assert!(is_gone(&mut second));
}

#[test]
fn superseded_connection_takes_nothing_with_it() {
    let mut hub = Hub::new();
    let mut older = connect(&mut hub, 1);
    let mut newer = connect(&mut hub, 2);
    let mut chat = open(&mut hub, "a");
    assert!(push(&mut hub, "a", "t", "m"));
    assert!(older.try_recv().is_err());
    assert!(newer.try_recv().is_ok());

    // The older socket closes; the newer one is still connected.
    hub.clear_adapter(1);
    assert!(hub.is_connected());
    assert!(push(&mut hub, "a", "t2", "m2"));
    assert!(newer.try_recv().is_ok());
    assert!(dispatch(&hub, draft("a", "x")));
    assert_eq!(chat.try_recv().unwrap(), draft("a", "x"));

    hub.clear_adapter(2);
    assert!(!hub.is_connected());
    hub.clear_adapter(2);
    assert!(!hub.is_connected());
}

#[test]
fn disconnect_drops_the_routes_that_wait_on_it() {
    let mut hub = Hub::new();
    let _adapter = connect(&mut hub, 1);
    let mut one = open(&mut hub, "a");
    let mut two = open(&mut hub, "b");
    let mut idle = open(&mut hub, "c");
    assert!(push(&mut hub, "a", "t", "m"));
    assert!(push(&mut hub, "b", "t", "m"));
    hub.clear_adapter(1);
    assert!(!hub.is_connected());
    assert!(!push(&mut hub, "a", "t", "m"));
    assert!(is_gone(&mut one) && is_gone(&mut two));
    assert!(!dispatch(&hub, draft("a", "x")));
    // A chat that has not pushed its message yet does not wait on anything.
    assert!(dispatch(&hub, draft("c", "x")));
    assert!(idle.try_recv().is_ok());
}

#[test]
fn new_adapter_reaches_the_chats_that_wait() {
    let mut hub = Hub::new();
    let _first = connect(&mut hub, 1);
    let mut chat = open(&mut hub, "a");
    assert!(push(&mut hub, "a", "t", "m"));
    let mut second = connect(&mut hub, 2);
    assert!(dispatch(&hub, draft("a", "x")));
    assert_eq!(chat.try_recv().unwrap(), draft("a", "x"));

    let mut other = open(&mut hub, "b");
    assert!(push(&mut hub, "b", "t", "m"));
    assert!(second.try_recv().is_ok());
    // The end of the first takes the chat that waits on it, and no other.
    hub.clear_adapter(1);
    assert!(hub.is_connected());
    assert!(is_gone(&mut chat));
    assert!(dispatch(&hub, draft("b", "y")));
    assert_eq!(other.try_recv().unwrap(), draft("b", "y"));

    // Pushing again makes the chat wait on the connection of that moment.
    let mut again = open_turn(&mut hub, "a", 2);
    assert!(push(&mut hub, "a", "t", "m"));
    hub.clear_adapter(2);
    assert!(is_gone(&mut again) && is_gone(&mut other));
}

#[test]
fn chat_ids_of_frames() {
    assert_eq!(draft("a", "x").chat_id(), "a");
    assert_eq!(FromAdapter::Send { chat_id: "b".into(), text: "x".into() }.chat_id(), "b");
    assert_eq!(FromAdapter::Typing { chat_id: "c".into() }.chat_id(), "c");
}

#[test]
fn adapter_events() {
    let mut hub = Hub::new();
    let mut chat = open(&mut hub, "a");
    match hub.on_adapter_event(AdapterEvent::Frame(draft("a", "x"))) {
        AdapterStep::Deliver(tx, frame) => tx.send(frame).unwrap(),
        _ => panic!("expected a delivery"),
    }
    assert_eq!(chat.try_recv().unwrap(), draft("a", "x"));
    let dropped = hub.on_adapter_event(AdapterEvent::Frame(draft("b", "x")));
    assert!(matches!(dropped, AdapterStep::Dropped));
    let malformed = hub.on_adapter_event(AdapterEvent::Malformed("why".into()));
    assert!(matches!(malformed, AdapterStep::Malformed(r) if r == "why"));
    assert!(matches!(hub.on_adapter_event(AdapterEvent::Other), AdapterStep::Ignored));
    assert!(matches!(hub.on_adapter_event(AdapterEvent::Closed), AdapterStep::Disconnected));
    assert!(matches!(hub.on_adapter_event(AdapterEvent::Failed), AdapterStep::Disconnected));
}
