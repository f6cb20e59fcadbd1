//! One chat on its way through the bridge.

use vstd::prelude::*;
use vstd::string::*;

use super::replies::{error_for, send_error};
use crate::bridge::{FromAdapter, FromAdapterView};
use crate::desktop::notify::{launcher_call, notify_launcher, NotifyCall, NotifyCallView};
use crate::ipc::protocol::{DaemonMessage, DaemonMessageView};

verus! {

/// A chat on its way through the bridge.
#[derive(Debug, Clone, PartialEq, Eq)]
pub struct ChatTurn {
    /// The request that started it.
    pub request_id: String,
    /// The conversation it belongs to.
    pub chat_id: String,
    /// Deliver the final reply as a desktop notification too (launcher chats:
    /// the launcher closes at once, so nobody would see the stream).
    pub notify_on_complete: bool,
}

/// What a [`ChatTurn`] says.
#[verifier::ext_equal]
pub struct TurnView {
    pub request_id: Seq<char>,
    pub chat_id: Seq<char>,
    pub notify_on_complete: bool,
}

impl View for ChatTurn {
    type V = TurnView;

    open spec fn view(&self) -> TurnView {
        TurnView {
            request_id: self.request_id@,
            chat_id: self.chat_id@,
            notify_on_complete: self.notify_on_complete,
        }
    }
}

/// What can happen to a chat under way.
#[derive(Debug, Clone, PartialEq, Eq)]
pub enum TurnEvent {
    /// The client cancelled it, or the daemon shuts down.
    Cancelled,
    /// The adapter sent a frame for it.
    Frame(FromAdapter),
    /// Its route is gone: the adapter disconnected, or another turn of the same
    /// chat took the route over.
    Disconnected,
}

/// What a [`TurnEvent`] says.
#[verifier::ext_equal]
pub enum TurnEventView {
    Cancelled,
    Frame(FromAdapterView),
    Disconnected,
}

impl View for TurnEvent {
    type V = TurnEventView;

    open spec fn view(&self) -> TurnEventView {
        match self {
            TurnEvent::Cancelled => TurnEventView::Cancelled,
            TurnEvent::Frame(f) => TurnEventView::Frame(f@),
            TurnEvent::Disconnected => TurnEventView::Disconnected,
        }
    }
}

impl TurnEventView {
    /// The event ends the turn.
    pub open spec fn ends_turn(self) -> bool {
        match self {
            TurnEventView::Cancelled => true,
            TurnEventView::Frame(FromAdapterView::Send { .. }) => true,
            TurnEventView::Frame(_) => false,
            TurnEventView::Disconnected => true,
        }
    }
}

/// What to do about an event: show the notification, then send the reply, then
/// close the chat's route if the turn is done.
#[derive(Debug, Clone, PartialEq, Eq)]
pub struct TurnStep {
    pub notification: Option<NotifyCall>,
    pub reply: Option<DaemonMessage>,
    pub done: bool,
}

/// What a [`TurnStep`] says.
#[verifier::ext_equal]
pub struct TurnStepView {
    pub notification: Option<NotifyCallView>,
    pub reply: Option<DaemonMessageView>,
    pub done: bool,
}

impl View for TurnStep {
    type V = TurnStepView;

    open spec fn view(&self) -> TurnStepView {
        TurnStepView {
            notification: self.notification.deep_view(),
            reply: match self.reply {
                Some(m) => Some(m@),
                None => None,
            },
            done: self.done,
        }
    }
}

impl TurnView {
    /// What to do about an event. `bus` tells whether there is a session bus.
    pub open spec fn step(self, bus: bool, event: TurnEventView) -> TurnStepView {
        match event {
            TurnEventView::Cancelled => TurnStepView {
                notification: None,
                reply: Some(error_for(self.request_id, "cancelled"@)),
                done: true,
            },
            TurnEventView::Frame(FromAdapterView::Draft { text, .. }) => TurnStepView {
                notification: None,
                reply: Some(
                    DaemonMessageView::Draft { request_id: self.request_id, content: text },
                ),
                done: false,
            },
            TurnEventView::Frame(FromAdapterView::Send { text, .. }) => TurnStepView {
                notification: if self.notify_on_complete {
                    launcher_call(bus, text)
                } else {
                    None
                },
                reply: Some(
                    DaemonMessageView::ChatComplete {
                        request_id: self.request_id,
                        content: text,
                        usage: None,
                    },
                ),
                done: true,
            },
            TurnEventView::Frame(FromAdapterView::Typing { .. }) => TurnStepView {
                notification: None,
                reply: None,
                done: false,
            },
            TurnEventView::Disconnected => TurnStepView {
                notification: None,
                reply: Some(error_for(self.request_id, "desktop platform disconnected"@)),
                done: true,
            },
        }
    }

    /// The answer where the message could not be pushed to an adapter.
    pub open spec fn offline(self) -> DaemonMessageView {
        error_for(self.request_id, "desktop platform offline"@)
    }

    /// What is answered at once, going by whether the message was pushed.
    pub open spec fn opening_reply(self, sent: bool) -> Option<DaemonMessageView> {
        if sent {
            None
        } else {
            Some(self.offline())
        }
    }
}

impl ChatTurn {
    /// Goes by whether the message was pushed to the adapter. Where it was not,
    /// the turn is over: close the chat's route and send the reply.
    pub fn opening(&self, sent: bool) -> (r: Option<DaemonMessage>)
        ensures
            r is Some <==> !sent,
            r matches Some(m) ==> m@ == self@.offline(),
            (match r {
                Some(m) => Some(m@),
                None => None,
            }) == self@.opening_reply(sent),
    {
        if sent {
            None
        } else {
            Some(send_error(self.request_id.as_str(), "desktop platform offline".to_owned()))
        }
    }

    /// Relays what happened to the chat: the adapter's `draft` and `send`
    /// frames become `Draft` and `ChatComplete`.
    pub fn on_event(&self, bus: bool, event: TurnEvent) -> (r: TurnStep)
        ensures
            r@ == self@.step(bus, event@),
    {
        match event {
            TurnEvent::Cancelled => TurnStep {
                notification: None,
                reply: Some(send_error(self.request_id.as_str(), "cancelled".to_owned())),
                done: true,
            },
            TurnEvent::Frame(frame) => match frame {
                FromAdapter::Draft { text, .. } => TurnStep {
                    notification: None,
                    reply: Some(
                        DaemonMessage::Draft {
                            request_id: self.request_id.clone(),
                            content: text,
                        },
                    ),
                    done: false,
                },
                FromAdapter::Send { text, .. } => {
                    let notification = if self.notify_on_complete {
                        notify_launcher(bus, text.as_str())
                    } else {
                        None
                    };
                    TurnStep {
                        notification,
                        reply: Some(
                            DaemonMessage::ChatComplete {
                                request_id: self.request_id.clone(),
                                content: text,
                                usage: None,
                            },
                        ),
                        done: true,
                    }
                },
                // The panel already shows that the chat is busy.
                FromAdapter::Typing { .. } => TurnStep {
                    notification: None,
                    reply: None,
                    done: false,
                },
            },
            TurnEvent::Disconnected => TurnStep {
                notification: None,
                reply: Some(
                    send_error(
                        self.request_id.as_str(),
                        "desktop platform disconnected".to_owned(),
                    ),
                ),
                done: true,
            },
        }
    }
}

/// The message ends the chat that it answers.
pub open spec fn is_final(m: DaemonMessageView) -> bool {
    m is ChatComplete || m is Error
}

/// The replies to a turn to which `events` happen, one after the other; what
/// happens after the turn is done brings no reply.
pub open spec fn turn_replies(turn: TurnView, bus: bool, events: Seq<TurnEventView>) -> Seq<
    DaemonMessageView,
>
    decreases events.len(),
{
    if events.len() == 0 {
        Seq::empty()
    } else {
        let step = turn.step(bus, events[0]);
        let first = match step.reply {
            Some(m) => seq![m],
            None => Seq::empty(),
        };
        if step.done {
            first
        } else {
            first + turn_replies(turn, bus, events.drop_first())
        }
    }
}

/// All replies to a chat, from the push to the adapter on.
pub open spec fn chat_replies(
    turn: TurnView,
    bus: bool,
    sent: bool,
    events: Seq<TurnEventView>,
) -> Seq<DaemonMessageView> {
    if sent {
        turn_replies(turn, bus, events)
    } else {
        seq![turn.offline()]
    }
}

/// Some event ends the turn.
pub open spec fn turn_ends(events: Seq<TurnEventView>) -> bool {
    exists|i: int| 0 <= i < events.len() && (#[trigger] events[i]).ends_turn()
}

/// Every reply to a chat carries the id of its request; all but the last are
/// drafts; and the last is final exactly when the turn has ended, so a chat
/// that ends is answered by one final message, which nothing follows.
pub proof fn chat_is_answered_once(
    turn: TurnView,
    bus: bool,
    sent: bool,
    events: Seq<TurnEventView>,
)
    ensures
        ({
            let rs = chat_replies(turn, bus, sent, events);
            &&& forall|i: int|
                0 <= i < rs.len() ==> (#[trigger] rs[i]).addressee() == Some(turn.request_id)
            &&& forall|i: int| 0 <= i < rs.len() - 1 ==> (#[trigger] rs[i]) is Draft
            &&& !sent || turn_ends(events) ==> rs.len() > 0 && is_final(rs.last())
            &&& sent && !turn_ends(events) ==> forall|i: int|
                0 <= i < rs.len() ==> (#[trigger] rs[i]) is Draft
        }),
{
    if sent {
        lemma_turn_replies(turn, bus, events);
    }
}

proof fn lemma_turn_replies(turn: TurnView, bus: bool, events: Seq<TurnEventView>)
    ensures
        ({
            let rs = turn_replies(turn, bus, events);
            &&& forall|i: int|
                0 <= i < rs.len() ==> (#[trigger] rs[i]).addressee() == Some(turn.request_id)
            &&& forall|i: int| 0 <= i < rs.len() - 1 ==> (#[trigger] rs[i]) is Draft
            &&& turn_ends(events) ==> rs.len() > 0 && is_final(rs.last())
            &&& !turn_ends(events) ==> forall|i: int|
                0 <= i < rs.len() ==> (#[trigger] rs[i]) is Draft
        }),
    decreases events.len(),
{
    if events.len() > 0 {
        let rest = events.drop_first();
        let step = turn.step(bus, events[0]);
        if step.done {
            assert(events[0].ends_turn());
        } else {
            lemma_turn_replies(turn, bus, rest);
            assert(!events[0].ends_turn());
            if turn_ends(events) {
                let i = choose|i: int| 0 <= i < events.len() && (#[trigger] events[i]).ends_turn();
                assert(rest[i - 1].ends_turn());
            }
            if turn_ends(rest) {
                let i = choose|i: int| 0 <= i < rest.len() && (#[trigger] rest[i]).ends_turn();
                assert(events[i + 1].ends_turn());
            }
        }
    }
}

/// The event at `k` is the first that ends the turn.
pub open spec fn first_end(events: Seq<TurnEventView>, k: int) -> bool {
    &&& 0 <= k < events.len()
    &&& events[k].ends_turn()
    &&& forall|i: int| 0 <= i < k ==> !(#[trigger] events[i]).ends_turn()
}

/// The first event that ends a turn decides how the chat is answered in the
/// end: the adapter's `send` by its text, anything else by an error.
pub proof fn first_end_decides_the_answer(
    turn: TurnView,
    bus: bool,
    events: Seq<TurnEventView>,
    k: int,
)
    requires
        first_end(events, k),
    ensures
        ({
            let rs = turn_replies(turn, bus, events);
            &&& rs.len() > 0
            &&& match events[k] {
                TurnEventView::Frame(FromAdapterView::Send { text, .. }) => rs.last()
                    == DaemonMessageView::ChatComplete {
                    request_id: turn.request_id,
                    content: text,
                    usage: None,
                },
                TurnEventView::Cancelled => rs.last() == error_for(
                    turn.request_id,
                    "cancelled"@,
                ),
                _ => rs.last() == error_for(turn.request_id, "desktop platform disconnected"@),
            }
        }),
    decreases events.len(),
{
    if k > 0 {
        let rest = events.drop_first();
        assert(!events[0].ends_turn());
        assert forall|i: int| 0 <= i < k - 1 implies !(#[trigger] rest[i]).ends_turn() by {
            assert(!events[i + 1].ends_turn());
        }
        first_end_decides_the_answer(turn, bus, rest, k - 1);
    }
}

/// Only launcher chats are delivered as a notification, and only by the `send`
/// that ends them, so each is delivered once at most.
pub proof fn only_launcher_chats_notify(turn: TurnView, bus: bool, event: TurnEventView)
    ensures
        turn.step(bus, event).notification is Some <==> {
            &&& turn.notify_on_complete
            &&& bus
            &&& event matches TurnEventView::Frame(FromAdapterView::Send { text, .. })
            &&& text.len() > 0
        },
        turn.step(bus, event).notification is Some ==> turn.step(bus, event).done,
{
}

/// A draft is relayed with all of its text, under the turn's request, and the
/// turn goes on; the adapter's `send` ends it with all of its text; a typing
/// indicator is not relayed at all.
pub proof fn frames_are_relayed_whole(
    turn: TurnView,
    bus: bool,
    chat_id: Seq<char>,
    text: Seq<char>,
)
    ensures
        ({
            let draft = turn.step(
                bus,
                TurnEventView::Frame(FromAdapterView::Draft { chat_id, text }),
            );
            let end = turn.step(
                bus,
                TurnEventView::Frame(FromAdapterView::Send { chat_id, text }),
            );
            let typing = turn.step(bus, TurnEventView::Frame(FromAdapterView::Typing { chat_id }));
            &&& draft.reply matches Some(DaemonMessageView::Draft { request_id, content })
                && request_id == turn.request_id && content == text
            &&& draft.notification is None && !draft.done
            &&& end.reply matches Some(DaemonMessageView::ChatComplete { request_id, content, usage })
                && request_id == turn.request_id && content == text && usage is None
            &&& end.done
            &&& end.notification == if turn.notify_on_complete {
                launcher_call(bus, text)
            } else {
                None
            }
            &&& typing.reply is None && typing.notification is None && !typing.done
        }),
{
}

/// A turn that is cancelled, loses its adapter or never reached one is answered
/// with an error under its request that says so; a message that was pushed is
/// not answered at once.
pub proof fn failed_turn_is_told_why(turn: TurnView, bus: bool)
    ensures
        ({
            let cancelled = turn.step(bus, TurnEventView::Cancelled);
            let lost = turn.step(bus, TurnEventView::Disconnected);
            let offline = turn.opening_reply(false);
            &&& cancelled.reply matches Some(DaemonMessageView::Error { request_id, message })
                && request_id == Some(turn.request_id) && message == "cancelled"@
            &&& cancelled.done && cancelled.notification is None
            &&& lost.reply matches Some(DaemonMessageView::Error { request_id, message })
                && request_id == Some(turn.request_id) && message
                == "desktop platform disconnected"@
            &&& lost.done && lost.notification is None
            &&& offline matches Some(DaemonMessageView::Error { request_id, message })
                && request_id == Some(turn.request_id) && message == "desktop platform offline"@
        }),
        turn.opening_reply(true) is None,
{
}

/// The event is a draft or a typing indicator.
pub open spec fn streams(event: TurnEventView) -> bool {
    event matches TurnEventView::Frame(frame) && !(frame is Send)
}

/// The texts of the draft frames among `events`, in order.
pub open spec fn draft_texts(events: Seq<TurnEventView>) -> Seq<Seq<char>>
    decreases events.len(),
{
    if events.len() == 0 {
        Seq::empty()
    } else {
        let rest = draft_texts(events.drop_first());
        match events[0] {
            TurnEventView::Frame(FromAdapterView::Draft { text, .. }) => seq![text] + rest,
            _ => rest,
        }
    }
}

/// As long as a turn goes on, its replies are the texts of the draft frames,
/// every one of them, whole and in order, under the turn's request; what comes
/// after is answered as if nothing had come before.
pub proof fn drafts_are_relayed_in_order(
    turn: TurnView,
    bus: bool,
    before: Seq<TurnEventView>,
    after: Seq<TurnEventView>,
)
    requires
        forall|i: int| 0 <= i < before.len() ==> streams(#[trigger] before[i]),
    ensures
        ({
            let texts = draft_texts(before);
            let replies = turn_replies(turn, bus, before + after);
            &&& replies.len() >= texts.len()
            &&& forall|i: int|
                0 <= i < texts.len() ==> (#[trigger] replies[i] matches DaemonMessageView::Draft {
                    request_id,
                    content,
                } && request_id == turn.request_id && content == texts[i])
            &&& replies.skip(texts.len() as int) == turn_replies(turn, bus, after)
        }),
    decreases before.len(),
{
    let all = before + after;
    let replies = turn_replies(turn, bus, all);
    if before.len() == 0 {
        assert(all =~= after);
        assert(replies.skip(0) =~= replies);
    } else {
        let rest = before.drop_first();
        assert(streams(before[0]));
        assert(all[0] == before[0]);
        assert(all.drop_first() =~= rest + after);
        assert forall|i: int| 0 <= i < rest.len() implies streams(#[trigger] rest[i]) by {
            assert(streams(before[i + 1]));
        }
        drafts_are_relayed_in_order(turn, bus, rest, after);
        let later = turn_replies(turn, bus, rest + after);
        let texts = draft_texts(before);
        let later_texts = draft_texts(rest);
        match before[0] {
            TurnEventView::Frame(FromAdapterView::Draft { text, .. }) => {
                assert(replies =~= seq![turn.step(bus, before[0]).reply->0] + later);
                assert forall|i: int| 0 <= i < texts.len() implies (#[trigger] replies[i] matches
                    DaemonMessageView::Draft { request_id, content } && request_id
                    == turn.request_id && content == texts[i]) by {
                    if i > 0 {
                        assert(replies[i] == later[i - 1]);
                        assert(texts[i] == later_texts[i - 1]);
                    }
                }
                assert(replies.skip(texts.len() as int) =~= later.skip(later_texts.len() as int));
            },
            _ => {
                assert(replies =~= later);
                assert(texts == later_texts);
            },
        }
    }
}

} // verus!
