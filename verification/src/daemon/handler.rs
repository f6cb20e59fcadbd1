//! What the daemon does about a request.

use vstd::prelude::*;
use vstd::string::*;

use super::replies::{error_for, send_error, Wanted, WantedView};
use super::turn::{
    chat_replies, first_end_decides_the_answer, ChatTurn, TurnEventView, TurnView,
};
use crate::bridge::{FromAdapterView, HubView, ToAdapterView};
use crate::hermes::session::{is_desktop_session_id, new_desktop_session_id};
use crate::ipc::protocol::{
    status, ClientMessage, DaemonMessage, DaemonMessageView, ModelInfo, ModelInfoView,
};
use crate::ollama::{OllamaError, OllamaErrorView};

verus! {

/// What to do about a request.
#[derive(Debug, Clone, PartialEq, Eq)]
pub enum Action {
    /// Nothing.
    Nothing,
    /// Send this answer.
    Reply(DaemonMessage),
    /// Open the chat's route, push `message` to the adapter, and go on as
    /// [`ChatTurn`] says.
    StartChat { turn: ChatTurn, message: String },
    /// List the sessions and answer by [`sessions_reply`](super::replies::sessions_reply).
    FetchSessions { request_id: String, wanted: Wanted },
    /// Fetch the history of the session and answer by [`messages_reply`](super::replies::messages_reply).
    FetchMessages { request_id: String, session_id: String },
    /// List the models and answer by [`DaemonHandler::models_reply`].
    FetchModels { request_id: String },
}

/// What an [`Action`] says.
#[allow(inconsistent_fields)]
#[verifier::ext_equal]
pub enum ActionView {
    Nothing,
    Reply(DaemonMessageView),
    StartChat { turn: TurnView, message: Seq<char> },
    FetchSessions { request_id: Seq<char>, wanted: WantedView },
    FetchMessages { request_id: Seq<char>, session_id: Seq<char> },
    FetchModels { request_id: Seq<char> },
}

impl View for Action {
    type V = ActionView;

    open spec fn view(&self) -> ActionView {
        match self {
            Action::Nothing => ActionView::Nothing,
            Action::Reply(m) => ActionView::Reply(m@),
            Action::StartChat { turn, message } => ActionView::StartChat {
                turn: turn@,
                message: message@,
            },
            Action::FetchSessions { request_id, wanted } => ActionView::FetchSessions {
                request_id: request_id@,
                wanted: wanted@,
            },
            Action::FetchMessages { request_id, session_id } => ActionView::FetchMessages {
                request_id: request_id@,
                session_id: session_id@,
            },
            Action::FetchModels { request_id } => ActionView::FetchModels {
                request_id: request_id@,
            },
        }
    }
}

/// Decides about local IPC requests.
#[derive(Debug, Clone, PartialEq, Eq)]
pub struct DaemonHandler {
    /// Last observed Hermes reachability (kept current by the health loop).
    hermes_up: bool,
    /// There is a session bus to deliver launcher responses by.
    bus: bool,
    /// There is a model picker (a token for the router is configured).
    picker: bool,
    /// Model chosen via `SetModel`. `None` means Hermes's configured default.
    selected_model: Option<String>,
}

/// What a [`DaemonHandler`] knows.
#[verifier::ext_equal]
pub struct HandlerView {
    pub hermes_up: bool,
    pub bus: bool,
    pub picker: bool,
    pub selected_model: Option<Seq<char>>,
}

impl View for DaemonHandler {
    type V = HandlerView;

    closed spec fn view(&self) -> HandlerView {
        HandlerView {
            hermes_up: self.hermes_up,
            bus: self.bus,
            picker: self.picker,
            selected_model: self.selected_model.deep_view(),
        }
    }
}

/// The status value for Hermes's reachability.
pub open spec fn hermes_status(up: bool) -> Seq<char> {
    if up {
        status::CONNECTED@
    } else {
        status::DISCONNECTED@
    }
}

/// The status event for a state of Hermes.
pub open spec fn status_event(up: bool) -> DaemonMessageView {
    DaemonMessageView::Status {
        hermes: hermes_status(up),
        daemon: status::READY@,
        request_id: None,
    }
}

/// The request calls for a fresh chat id: a new session, or a chat that comes
/// without one.
pub open spec fn calls_for_id(msg: ClientMessage) -> bool {
    match msg {
        ClientMessage::SessionCreate { .. } => true,
        ClientMessage::Chat { session_id, .. } => session_id is None,
        _ => false,
    }
}

impl HandlerView {
    /// What a handler knows at first: no model is selected.
    pub open spec fn initial(hermes_up: bool, bus: bool, picker: bool) -> HandlerView {
        HandlerView { hermes_up, bus, picker, selected_model: None }
    }

    /// What the handler knows after a health probe.
    pub open spec fn noted(self, up: bool) -> HandlerView {
        HandlerView { hermes_up: up, ..self }
    }

    /// What to do about `msg`, where `fresh` is a newly minted chat id.
    pub open spec fn action(self, msg: ClientMessage, fresh: Seq<char>) -> ActionView {
        match msg {
            ClientMessage::Chat { request_id, session_id, message } => ActionView::StartChat {
                turn: TurnView {
                    request_id: request_id@,
                    chat_id: match session_id {
                        Some(id) => id@,
                        None => fresh,
                    },
                    notify_on_complete: session_id is None,
                },
                message: message@,
            },
            ClientMessage::SessionCreate { request_id, title } => ActionView::Reply(
                DaemonMessageView::SessionCreated {
                    request_id: request_id@,
                    session_id: fresh,
                    title: title.deep_view(),
                    model: self.selected_model,
                },
            ),
            ClientMessage::SessionList { request_id } => ActionView::FetchSessions {
                request_id: request_id@,
                wanted: WantedView::Desktop,
            },
            ClientMessage::SessionMessages { request_id, session_id } =>
                ActionView::FetchMessages { request_id: request_id@, session_id: session_id@ },
            ClientMessage::SessionResume { request_id, session_id } => ActionView::FetchSessions {
                request_id: request_id@,
                wanted: WantedView::Only(session_id@),
            },
            ClientMessage::Status { request_id } => ActionView::Reply(
                DaemonMessageView::Status {
                    hermes: hermes_status(self.hermes_up),
                    daemon: status::READY@,
                    request_id: Some(request_id@),
                },
            ),
            ClientMessage::ModelList { request_id } => if self.picker {
                ActionView::FetchModels { request_id: request_id@ }
            } else {
                ActionView::Reply(error_for(request_id@, "model picker not configured"@))
            },
            ClientMessage::SetModel { .. } => ActionView::Nothing,
            ClientMessage::Subscribe { .. } => ActionView::Nothing,
            ClientMessage::Cancel { .. } => ActionView::Nothing,
        }
    }

    /// What the handler knows after `msg`: only `SetModel` changes anything.
    pub open spec fn after(self, msg: ClientMessage) -> HandlerView {
        match msg {
            ClientMessage::SetModel { model, .. } => HandlerView {
                selected_model: Some(model@),
                ..self
            },
            _ => self,
        }
    }

    /// The broadcast that a health probe calls for: a status event on every
    /// transition, and none otherwise.
    pub open spec fn health_event(self, up: bool) -> Option<DaemonMessageView> {
        if up != self.hermes_up {
            Some(status_event(up))
        } else {
            None
        }
    }

    /// The answer to a list of models: each flagged `active` if it is the
    /// selected one.
    pub open spec fn models_answer(
        self,
        request_id: Seq<char>,
        outcome: Result<Seq<ModelInfoView>, OllamaErrorView>,
    ) -> DaemonMessageView {
        match outcome {
            Ok(all) => DaemonMessageView::Models {
                request_id,
                data: Seq::new(
                    all.len(),
                    |i: int|
                        ModelInfoView { active: self.selected_model == Some(all[i].id), ..all[i] },
                ),
            },
            Err(e) => error_for(request_id, e.message()),
        }
    }
}

impl DaemonHandler {
    /// A handler that has no model selected.
    pub fn new(hermes_up: bool, bus: bool, picker: bool) -> (r: Self)
        ensures
            r@ == HandlerView::initial(hermes_up, bus, picker),
    {
        DaemonHandler { hermes_up, bus, picker, selected_model: None }
    }

    /// Is there a session bus?
    pub fn has_bus(&self) -> (r: bool)
        ensures
            r == self@.bus,
    {
        self.bus
    }

    fn status_str(&self) -> (r: &'static str)
        ensures
            r@ == hermes_status(self@.hermes_up),
    {
        if self.hermes_up {
            status::CONNECTED
        } else {
            status::DISCONNECTED
        }
    }

    fn selected(&self) -> (r: Option<String>)
        ensures
            r.deep_view() == self@.selected_model,
    {
        match &self.selected_model {
            Some(m) => Some(m.clone()),
            None => None,
        }
    }

    /// Decides about a request. `fresh` is a newly minted chat id; it is not
    /// looked at where none is called for.
    pub fn handle_with(&mut self, msg: ClientMessage, fresh: String) -> (r: Action)
        ensures
            r@ == old(self)@.action(msg, fresh@),
            final(self)@ == old(self)@.after(msg),
    {
        match msg {
            ClientMessage::Chat { request_id, session_id, message } => {
                let notify_on_complete = session_id.is_none();
                let chat_id = match session_id {
                    Some(id) => id,
                    None => fresh,
                };
                Action::StartChat {
                    turn: ChatTurn { request_id, chat_id, notify_on_complete },
                    message,
                }
            },
            // The gateway owns desktop sessions and mints one (keyed by this
            // chat id) on the first bridge message.
            ClientMessage::SessionCreate { request_id, title } => Action::Reply(
                DaemonMessage::SessionCreated {
                    request_id,
                    session_id: fresh,
                    title,
                    model: self.selected(),
                },
            ),
            ClientMessage::SessionList { request_id } => Action::FetchSessions {
                request_id,
                wanted: Wanted::Desktop,
            },
            ClientMessage::SessionMessages { request_id, session_id } => Action::FetchMessages {
                request_id,
                session_id,
            },
            ClientMessage::SessionResume { request_id, session_id } => Action::FetchSessions {
                request_id,
                wanted: Wanted::Only(session_id),
            },
            ClientMessage::Status { request_id } => Action::Reply(
                DaemonMessage::Status {
                    hermes: self.status_str().to_owned(),
                    daemon: status::READY.to_owned(),
                    request_id: Some(request_id),
                },
            ),
            ClientMessage::ModelList { request_id } => if self.picker {
                Action::FetchModels { request_id }
            } else {
                Action::Reply(
                    send_error(request_id.as_str(), "model picker not configured".to_owned()),
                )
            },
            ClientMessage::SetModel { model, .. } => {
                self.selected_model = Some(model);
                Action::Nothing
            },
            // The connection itself takes care of these.
            ClientMessage::Subscribe { .. } => Action::Nothing,
            ClientMessage::Cancel { .. } => Action::Nothing,
        }
    }

    /// Decides about a request, with a freshly minted chat id where one is
    /// called for.
    pub fn handle(&mut self, msg: ClientMessage) -> (r: Action)
        ensures
            calls_for_id(msg) ==> exists|fresh: Seq<char>|
                is_desktop_session_id(fresh) && r@ == #[trigger] old(self)@.action(msg, fresh),
            !calls_for_id(msg) ==> forall|fresh: Seq<char>|
                r@ == #[trigger] old(self)@.action(msg, fresh),
            final(self)@ == old(self)@.after(msg),
    {
        let minted = match &msg {
            ClientMessage::SessionCreate { .. } => true,
            ClientMessage::Chat { session_id, .. } => session_id.is_none(),
            _ => false,
        };
        let fresh = if minted {
            new_desktop_session_id()
        } else {
            String::new()
        };
        let ghost id = fresh@;
        let r = self.handle_with(msg, fresh);
        assert(r@ == old(self)@.action(msg, id));
        r
    }

    /// Takes note of a health probe; the result is the status event to
    /// broadcast, on every transition.
    pub fn observe_health(&mut self, up: bool) -> (r: Option<DaemonMessage>)
        ensures
            r is Some <==> old(self)@.health_event(up) is Some,
            r matches Some(m) ==> Some(m@) == old(self)@.health_event(up),
            final(self)@ == old(self)@.noted(up),
    {
        let was: bool = self.hermes_up;
        self.hermes_up = up;
        if up != was {
            Some(
                DaemonMessage::Status {
                    hermes: self.status_str().to_owned(),
                    daemon: status::READY.to_owned(),
                    request_id: None,
                },
            )
        } else {
            None
        }
    }

    /// Answers a request for the models from what the router answered.
    pub fn models_reply(
        &self,
        request_id: String,
        outcome: Result<Vec<ModelInfo>, OllamaError>,
    ) -> (r: DaemonMessage)
        ensures
            r@ == self@.models_answer(
                request_id@,
                (match outcome {
                    Ok(v) => Ok(v.deep_view()),
                    Err(e) => Err(e.deep_view()),
                }),
            ),
    {
        match outcome {
            Ok(all) => {
                let mut data: Vec<ModelInfo> = Vec::new();
                for m in it: all
                    invariant
                        it.seq() == all@,
                        data@.len() == it.index(),
                        forall|j: int|
                            0 <= j < it.index() ==> (#[trigger] data@[j]).deep_view() == (
                            ModelInfoView {
                                active: self@.selected_model == Some(all@[j].id@),
                                ..all@[j].deep_view()
                            }),
                {
                    let active = match &self.selected_model {
                        Some(s) => *s == m.id,
                        None => false,
                    };
                    data.push(ModelInfo { active, ..m });
                }
                let r = DaemonMessage::Models { request_id, data };
                assert(r@ =~~= self@.models_answer(request_id@, Ok(all.deep_view())));
                r
            },
            Err(e) => send_error(request_id.as_str(), e.message()),
        }
    }
}

/// What a request leads to carries the id of the request: the answer, or the
/// chat or fetch that the answer comes from.
pub proof fn action_keeps_the_request_id(h: HandlerView, msg: ClientMessage, fresh: Seq<char>)
    ensures
        match h.action(msg, fresh) {
            ActionView::Nothing => true,
            ActionView::Reply(m) => m.addressee() == msg.correlation(),
            ActionView::StartChat { turn, .. } => Some(turn.request_id) == msg.correlation(),
            ActionView::FetchSessions { request_id, .. } => Some(request_id) == msg.correlation(),
            ActionView::FetchMessages { request_id, .. } => Some(request_id) == msg.correlation(),
            ActionView::FetchModels { request_id } => Some(request_id) == msg.correlation(),
        },
{
}

/// The answer to a request for the models carries the id of its request,
/// whatever came back.
pub proof fn models_answer_keeps_the_request_id(
    h: HandlerView,
    request_id: Seq<char>,
    models: Result<Seq<ModelInfoView>, OllamaErrorView>,
)
    ensures
        h.models_answer(request_id, models).addressee() == Some(request_id),
{
}

/// What the handler knows after a series of requests.
pub open spec fn after_all(h: HandlerView, msgs: Seq<ClientMessage>) -> HandlerView
    decreases msgs.len(),
{
    if msgs.len() == 0 {
        h
    } else {
        after_all(h, msgs.drop_last()).after(msgs.last())
    }
}

proof fn lemma_model_unchanged(h: HandlerView, msgs: Seq<ClientMessage>)
    requires
        forall|i: int| 0 <= i < msgs.len() ==> !((#[trigger] msgs[i]) is SetModel),
    ensures
        after_all(h, msgs) == h,
    decreases msgs.len(),
{
    if msgs.len() > 0 {
        lemma_model_unchanged(h, msgs.drop_last());
    }
}

/// The model that `SetModel` chose is the one that sessions are created with,
/// until the next `SetModel`, whatever other requests come between.
pub proof fn chosen_model_is_kept(
    h: HandlerView,
    set: ClientMessage,
    between: Seq<ClientMessage>,
    create: ClientMessage,
    fresh: Seq<char>,
)
    requires
        set is SetModel,
        forall|i: int| 0 <= i < between.len() ==> !((#[trigger] between[i]) is SetModel),
        create is SessionCreate,
    ensures
        after_all(h.after(set), between).action(create, fresh) matches ActionView::Reply(
            DaemonMessageView::SessionCreated { model, .. },
        ) && model == Some(set->model@),
{
    lemma_model_unchanged(h.after(set), between);
}

/// At most the models with the selected id are active in the picker, and
/// nothing else about a model changes.
pub proof fn active_models_are_the_selected(
    h: HandlerView,
    request_id: Seq<char>,
    all: Seq<ModelInfoView>,
)
    ensures
        h.models_answer(request_id, Ok(all)) matches DaemonMessageView::Models { data, .. }
            && data.len() == all.len() && forall|i: int|
            0 <= i < all.len() ==> {
                &&& (#[trigger] data[i]).id == all[i].id
                &&& data[i].loaded == all[i].loaded
                &&& data[i].active <==> h.selected_model == Some(all[i].id)
            },
{
}

proof fn lemma_health_unchanged(h: HandlerView, msgs: Seq<ClientMessage>)
    ensures
        after_all(h, msgs).hermes_up == h.hermes_up,
    decreases msgs.len(),
{
    if msgs.len() > 0 {
        lemma_health_unchanged(h, msgs.drop_last());
    }
}

/// A status request is told what the last probe found, whatever other requests
/// came in since.
pub proof fn status_tells_the_last_probe(
    h: HandlerView,
    up: bool,
    since: Seq<ClientMessage>,
    query: ClientMessage,
    fresh: Seq<char>,
)
    requires
        query is Status,
    ensures
        after_all(HandlerView { hermes_up: up, ..h }, since).action(query, fresh)
            == ActionView::Reply(
            DaemonMessageView::Status {
                hermes: hermes_status(up),
                daemon: status::READY@,
                request_id: query.correlation(),
            },
        ),
{
    lemma_health_unchanged(HandlerView { hermes_up: up, ..h }, since);
}

/// The status events that a series of probes calls for.
pub open spec fn health_events(h: HandlerView, probes: Seq<bool>) -> Seq<DaemonMessageView>
    decreases probes.len(),
{
    if probes.len() == 0 {
        Seq::empty()
    } else {
        let first = match h.health_event(probes[0]) {
            Some(m) => seq![m],
            None => Seq::empty(),
        };
        first + health_events(HandlerView { hermes_up: probes[0], ..h }, probes.drop_first())
    }
}

/// The status event of a transition is a broadcast: it answers no request.
pub proof fn status_event_is_a_broadcast(h: HandlerView, up: bool)
    ensures
        h.health_event(up) matches Some(m) ==> m == status_event(up) && m.addressee() is None,
{
}

/// Who knows Hermes's state and follows the status events knows it after any
/// series of probes: the events take turns, the first contradicts the state
/// before, and the last tells the state that the last probe found.
pub proof fn status_events_follow_health(h: HandlerView, probes: Seq<bool>)
    ensures
        ({
            let events = health_events(h, probes);
            let now = if probes.len() == 0 {
                h.hermes_up
            } else {
                probes.last()
            };
            &&& events.len() <= probes.len()
            &&& forall|i: int|
                0 <= i < events.len() ==> #[trigger] events[i] == status_event(
                    if i % 2 == 0 {
                        !h.hermes_up
                    } else {
                        h.hermes_up
                    },
                )
            &&& now == (if events.len() % 2 == 0 {
                h.hermes_up
            } else {
                !h.hermes_up
            })
        }),
    decreases probes.len(),
{
    if probes.len() > 0 {
        let next = HandlerView { hermes_up: probes[0], ..h };
        let rest = probes.drop_first();
        status_events_follow_health(next, rest);
        let events = health_events(h, probes);
        let tail = health_events(next, rest);
        if probes[0] != h.hermes_up {
            assert forall|i: int| 0 <= i < events.len() implies #[trigger] events[i]
                == status_event(
                if i % 2 == 0 {
                    !h.hermes_up
                } else {
                    h.hermes_up
                },
            ) by {
                if i > 0 {
                    assert(events[i] == tail[i - 1]);
                }
            }
        } else {
            assert(events =~= tail);
        }
        if rest.len() > 0 {
            assert(rest.last() == probes.last());
        }
    }
}

/// A chat goes through the bridge and back. Where an adapter is connected, it
/// gets the message under the chat's id; and once the chat's route is open, the
/// adapter's `send` for that id reaches the chat and completes the request with
/// its text. A panel chat keeps its own id and is not notified; a launcher chat
/// goes by the fresh one.
pub proof fn chat_goes_through_the_bridge<A, S>(
    h: HandlerView,
    msg: ClientMessage,
    fresh: Seq<char>,
    hub: HubView<A, S>,
    id: u64,
    adapter: A,
    number: u64,
    sink: S,
    text: Seq<char>,
)
    requires
        msg is Chat,
        hub.adapter == Some((id, adapter)),
    ensures
        h.action(msg, fresh) matches ActionView::StartChat { turn, message } && {
            let open = hub.opened(turn.chat_id, number, sink);
            let reply = FromAdapterView::Send { chat_id: turn.chat_id, text };
            &&& message == msg->message@
            &&& turn.chat_id == (match msg->Chat_session_id {
                Some(id) => id@,
                None => fresh,
            })
            &&& turn.notify_on_complete <==> msg->Chat_session_id is None
            &&& open.inbound(turn.chat_id, message, turn.request_id) == Some(
                (
                    adapter,
                    ToAdapterView::Inbound {
                        chat_id: turn.chat_id,
                        text: message,
                        message_id: turn.request_id,
                    },
                ),
            )
            &&& open.route(reply) == Some(sink)
            &&& turn.step(h.bus, TurnEventView::Frame(reply)).reply == Some(
                DaemonMessageView::ChatComplete {
                    request_id: turn.request_id,
                    content: text,
                    usage: None,
                },
            )
        },
{
}

/// Without an adapter a chat is answered at once, by one error, and nothing that
/// happens later adds to that.
pub proof fn offline_chat_is_answered_by_one_error<A, S>(
    h: HandlerView,
    msg: ClientMessage,
    fresh: Seq<char>,
    hub: HubView<A, S>,
    number: u64,
    sink: S,
    events: Seq<TurnEventView>,
)
    requires
        msg is Chat,
        hub.adapter is None,
    ensures
        h.action(msg, fresh) matches ActionView::StartChat { turn, message } && {
            let sent = hub.opened(turn.chat_id, number, sink).inbound(
                turn.chat_id,
                message,
                turn.request_id,
            ) is Some;
            chat_replies(turn, h.bus, sent, events) == seq![
                error_for(msg->Chat_request_id@, "desktop platform offline"@),
            ]
        },
{
}

/// A chat whose adapter goes away before its final `send` is answered. The end
/// of the connection that its message was pushed to takes the chat's route away,
/// whether or not another adapter has connected since; and whatever frames came
/// before that, the last reply is then the error that says so.
pub proof fn chat_is_answered_when_its_adapter_goes<A, S>(
    turn: TurnView,
    bus: bool,
    hub: HubView<A, S>,
    id: u64,
    number: u64,
    sink: S,
    other: u64,
    a: A,
    before: Seq<TurnEventView>,
)
    requires
        hub.current() == Some(id),
        forall|i: int| 0 <= i < before.len() ==> !(#[trigger] before[i]).ends_turn(),
    ensures
        ({
            let sent = hub.opened(turn.chat_id, number, sink).pushed(turn.chat_id);
            let rs = chat_replies(turn, bus, true, before.push(TurnEventView::Disconnected));
            &&& sent.awaits(turn.chat_id, number)
            &&& !sent.hung_up(id).routes.contains_key(turn.chat_id)
            &&& !sent.connected(other, a).hung_up(id).routes.contains_key(turn.chat_id)
            &&& rs.len() > 0
            &&& rs.last() == error_for(turn.request_id, "desktop platform disconnected"@)
        }),
{
    let events = before.push(TurnEventView::Disconnected);
    assert forall|i: int| 0 <= i < before.len() implies !(#[trigger] events[i]).ends_turn() by {
        assert(!before[i].ends_turn());
    }
    first_end_decides_the_answer(turn, bus, events, before.len() as int);
}

/// Every request leads where it should. A new session gets the fresh id, the
/// title asked for and the selected model; the switcher asks for the desktop
/// sessions, a resume for the one session, a history for that of its session;
/// the status is told as it is known; the models are fetched where there is a
/// picker, and refused where there is none; and nothing is done about the rest.
pub proof fn requests_lead_where_they_should(
    h: HandlerView,
    id: String,
    session: String,
    title: Option<String>,
    any: Option<String>,
    fresh: Seq<char>,
)
    ensures
        h.action(ClientMessage::SessionCreate { request_id: id, title }, fresh) matches
            ActionView::Reply(DaemonMessageView::SessionCreated {
            request_id,
            session_id,
            title: t,
            model,
        }) && request_id == id@ && session_id == fresh && t == title.deep_view() && model
            == h.selected_model,
        h.action(ClientMessage::SessionList { request_id: id }, fresh) matches
            ActionView::FetchSessions { request_id, wanted } && request_id == id@
            && wanted is Desktop,
        h.action(ClientMessage::SessionResume { request_id: id, session_id: session }, fresh) matches
            ActionView::FetchSessions { request_id, wanted: WantedView::Only(s) } && request_id
            == id@ && s == session@,
        h.action(
            ClientMessage::SessionMessages { request_id: id, session_id: session },
            fresh,
        ) matches ActionView::FetchMessages { request_id, session_id } && request_id == id@
            && session_id == session@,
        h.action(ClientMessage::Status { request_id: id }, fresh) matches ActionView::Reply(
            DaemonMessageView::Status { hermes, daemon, request_id },
        ) && hermes == (if h.hermes_up {
            "connected"@
        } else {
            "disconnected"@
        }) && daemon == "ready"@ && request_id == Some(id@),
        h.picker ==> (h.action(ClientMessage::ModelList { request_id: id }, fresh) matches
            ActionView::FetchModels { request_id } && request_id == id@),
        !h.picker ==> (h.action(ClientMessage::ModelList { request_id: id }, fresh) matches
            ActionView::Reply(DaemonMessageView::Error { request_id, message }) && request_id
            == Some(id@) && message == "model picker not configured"@),
        h.action(ClientMessage::SetModel { request_id: id, model: session }, fresh) is Nothing,
        h.action(ClientMessage::Subscribe { request_id: any }, fresh) is Nothing,
        h.action(ClientMessage::Cancel { request_id: id }, fresh) is Nothing,
{
}

/// A fresh id is called for by a new session and by a chat without one, and by
/// nothing else; where none is called for, it makes no difference.
pub proof fn fresh_ids_are_for_new_chats(
    h: HandlerView,
    msg: ClientMessage,
    one: Seq<char>,
    other: Seq<char>,
)
    ensures
        calls_for_id(msg) <==> msg is SessionCreate || (msg is Chat
            && msg->Chat_session_id is None),
        !calls_for_id(msg) ==> h.action(msg, one) == h.action(msg, other),
        calls_for_id(msg) && one != other ==> h.action(msg, one) != h.action(msg, other),
{
}

/// A handler begins as it is told, without a model. Of what it knows, a request
/// changes the selected model alone, and that only where it sets one; a probe
/// changes Hermes's state alone.
pub proof fn handler_changes_one_thing_at_a_time(
    h: HandlerView,
    msg: ClientMessage,
    up: bool,
    bus: bool,
    picker: bool,
)
    ensures
        ({
            let start = HandlerView::initial(up, bus, picker);
            &&& start.hermes_up == up && start.bus == bus && start.picker == picker
            &&& start.selected_model is None
        }),
        ({
            let after = h.after(msg);
            &&& after.hermes_up == h.hermes_up && after.bus == h.bus && after.picker == h.picker
            &&& after.selected_model == if msg is SetModel {
                Some(msg->model@)
            } else {
                h.selected_model
            }
        }),
        ({
            let after = h.noted(up);
            &&& after.hermes_up == up
            &&& after.bus == h.bus && after.picker == h.picker && after.selected_model
                == h.selected_model
        }),
{
}

/// A probe that finds Hermes as it was calls for nothing; one that finds it
/// otherwise calls for a status event that tells what was found.
pub proof fn transitions_are_told(h: HandlerView, up: bool)
    ensures
        up == h.hermes_up ==> h.health_event(up) is None,
        up != h.hermes_up ==> (h.health_event(up) matches Some(DaemonMessageView::Status {
            hermes,
            daemon,
            request_id,
        }) && hermes == (if up {
            "connected"@
        } else {
            "disconnected"@
        }) && daemon == "ready"@ && request_id is None),
{
}

/// Where the router refuses, a request for the models is answered in the words
/// of the error; a list is answered under the request.
pub proof fn models_come_or_the_error(
    h: HandlerView,
    request: Seq<char>,
    all: Seq<ModelInfoView>,
    e: OllamaErrorView,
)
    ensures
        h.models_answer(request, Err(e)) matches DaemonMessageView::Error { request_id, message }
            && request_id == Some(request) && message == e.message(),
        h.models_answer(request, Ok(all)) matches DaemonMessageView::Models { request_id, data }
            && request_id == request && data.len() == all.len(),
{
}

} // verus!
