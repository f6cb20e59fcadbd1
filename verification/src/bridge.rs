//! Gateway bridge: the daemon side of the Hermes "desktop" platform.
//!
//! A platform adapter dials in and stays connected. Panel chat messages are
//! pushed to it as `inbound` frames; it pushes `draft` (growing full text),
//! `send` (final) and `typing` frames back. The [`BridgeHub`] knows the single
//! adapter connection and routes response frames, by their chat id, to
//! whichever panel chat awaits them.

use vstd::prelude::*;
use vstd::string::*;

verus! {

/// Daemon to adapter frame.
#[derive(Debug, Clone, PartialEq, Eq)]
pub enum ToAdapter {
    /// A user message from the desktop for the conversation `chat_id`.
    Inbound { chat_id: String, text: String, message_id: String },
}

/// What a [`ToAdapter`] frame says.
#[verifier::ext_equal]
pub enum ToAdapterView {
    Inbound { chat_id: Seq<char>, text: Seq<char>, message_id: Seq<char> },
}

impl View for ToAdapter {
    type V = ToAdapterView;

    open spec fn view(&self) -> ToAdapterView {
        match self {
            ToAdapter::Inbound { chat_id, text, message_id } => ToAdapterView::Inbound {
                chat_id: chat_id@,
                text: text@,
                message_id: message_id@,
            },
        }
    }
}

/// Adapter to daemon frame.
#[derive(Debug, Clone, PartialEq, Eq)]
pub enum FromAdapter {
    /// Growing full assistant text; the panel replaces the streaming bubble
    /// with `text`.
    Draft { chat_id: String, text: String },
    /// Final assistant message for the turn.
    Send { chat_id: String, text: String },
    /// Typing indicator.
    Typing { chat_id: String },
}

/// What a [`FromAdapter`] frame says.
#[verifier::ext_equal]
pub enum FromAdapterView {
    Draft { chat_id: Seq<char>, text: Seq<char> },
    Send { chat_id: Seq<char>, text: Seq<char> },
    Typing { chat_id: Seq<char> },
}

impl FromAdapterView {
    /// The conversation that the frame is for.
    pub open spec fn chat(self) -> Seq<char> {
        match self {
            FromAdapterView::Draft { chat_id, .. } => chat_id,
            FromAdapterView::Send { chat_id, .. } => chat_id,
            FromAdapterView::Typing { chat_id } => chat_id,
        }
    }
}

impl View for FromAdapter {
    type V = FromAdapterView;

    open spec fn view(&self) -> FromAdapterView {
        match self {
            FromAdapter::Draft { chat_id, text } => FromAdapterView::Draft {
                chat_id: chat_id@,
                text: text@,
            },
            FromAdapter::Send { chat_id, text } => FromAdapterView::Send {
                chat_id: chat_id@,
                text: text@,
            },
            FromAdapter::Typing { chat_id } => FromAdapterView::Typing { chat_id: chat_id@ },
        }
    }
}

impl FromAdapter {
    /// The conversation that the frame is for.
    pub fn chat_id(&self) -> (r: &str)
        ensures
            r@ == self@.chat(),
    {
        match self {
            FromAdapter::Draft { chat_id, .. } => chat_id.as_str(),
            FromAdapter::Send { chat_id, .. } => chat_id.as_str(),
            FromAdapter::Typing { chat_id } => chat_id.as_str(),
        }
    }
}

/// What can come over the adapter's connection.
#[derive(Debug, Clone, PartialEq, Eq)]
pub enum AdapterEvent {
    /// A text message that is a frame.
    Frame(FromAdapter),
    /// A text message that is no frame, and why.
    Malformed(String),
    /// The adapter closed the connection.
    Closed,
    /// Reading failed.
    Failed,
    /// A ping, a pong or a binary message.
    Other,
}

/// What to do about an [`AdapterEvent`].
#[verifier::reject_recursive_types(S)]
pub enum AdapterStep<'a, S> {
    /// Push the frame to the chat.
    Deliver(&'a S, FromAdapter),
    /// Nobody waits for the frame: drop it.
    Dropped,
    /// Go on; the message was no frame, for this reason.
    Malformed(String),
    /// Go on.
    Ignored,
    /// The connection is over: clear the adapter, under the connection's number.
    Disconnected,
}

/// What an [`AdapterStep`] says.
#[verifier::ext_equal]
#[verifier::reject_recursive_types(S)]
pub enum AdapterStepView<S> {
    Deliver(S, FromAdapterView),
    Dropped,
    Malformed(Seq<char>),
    Ignored,
    Disconnected,
}

impl<'a, S> AdapterStep<'a, S> {
    /// What the step says.
    pub open spec fn says(self) -> AdapterStepView<S> {
        match self {
            AdapterStep::Deliver(sink, frame) => AdapterStepView::Deliver(*sink, frame@),
            AdapterStep::Dropped => AdapterStepView::Dropped,
            AdapterStep::Malformed(reason) => AdapterStepView::Malformed(reason@),
            AdapterStep::Ignored => AdapterStepView::Ignored,
            AdapterStep::Disconnected => AdapterStepView::Disconnected,
        }
    }
}

/// A chat that awaits response frames.
struct Route<S> {
    chat_id: String,
    turn: u64,
    via: Option<u64>,
    sink: S,
}

/// How a chat awaits response frames.
pub struct RouteView<S> {
    /// The number of its turn.
    pub turn: u64,
    /// The connection that its message was pushed to, once it was.
    pub via: Option<u64>,
    /// The way to the chat.
    pub sink: S,
}

impl<S> Route<S> {
    spec fn entry(self) -> RouteView<S> {
        RouteView { turn: self.turn, via: self.via, sink: self.sink }
    }
}

/// The routes of a list, by chat.
spec fn routes_of<S>(list: Seq<Route<S>>) -> Map<Seq<char>, RouteView<S>>
    decreases list.len(),
{
    if list.len() == 0 {
        Map::empty()
    } else {
        routes_of(list.drop_last()).insert(list.last().chat_id@, list.last().entry())
    }
}

/// No chat has two routes.
spec fn distinct<S>(list: Seq<Route<S>>) -> bool {
    forall|i: int, j: int|
        0 <= i < j < list.len() ==> (#[trigger] list[i]).chat_id@ != (#[trigger] list[j]).chat_id@
}

proof fn lemma_routes_of<S>(list: Seq<Route<S>>, chat_id: Seq<char>)
    ensures
        routes_of(list).contains_key(chat_id) <==> exists|i: int|
            0 <= i < list.len() && (#[trigger] list[i]).chat_id@ == chat_id,
        distinct(list) ==> forall|i: int|
            0 <= i < list.len() ==> routes_of(list)[(#[trigger] list[i]).chat_id@]
                == list[i].entry(),
    decreases list.len(),
{
    if list.len() > 0 {
        let front = list.drop_last();
        lemma_routes_of(front, chat_id);
        if routes_of(front).contains_key(chat_id) {
            let i = choose|i: int| 0 <= i < front.len() && (#[trigger] front[i]).chat_id@ == chat_id;
            assert(list[i].chat_id@ == chat_id);
        }
        if exists|i: int| 0 <= i < list.len() && (#[trigger] list[i]).chat_id@ == chat_id {
            let i = choose|i: int| 0 <= i < list.len() && (#[trigger] list[i]).chat_id@ == chat_id;
            if i < front.len() {
                assert(front[i].chat_id@ == chat_id);
            }
        }
        if list.last().chat_id@ == chat_id {
            assert(list[list.len() - 1].chat_id@ == chat_id);
        }
        if distinct(list) {
            assert forall|i: int| 0 <= i < list.len() implies routes_of(
                list,
            )[(#[trigger] list[i]).chat_id@] == list[i].entry() by {
                if i < front.len() {
                    assert(front[i] == list[i]);
                    assert(list[i].chat_id@ != list[list.len() - 1].chat_id@);
                }
            }
        }
    }
}

proof fn lemma_routes_push<S>(list: Seq<Route<S>>, route: Route<S>)
    requires
        distinct(list),
        !routes_of(list).contains_key(route.chat_id@),
    ensures
        distinct(list.push(route)),
        routes_of(list.push(route)) == routes_of(list).insert(route.chat_id@, route.entry()),
{
    lemma_routes_of(list, route.chat_id@);
    assert(list.push(route).drop_last() =~= list);
}

/// Which routes are over.
enum Gone {
    /// That of a chat, whatever its turn.
    Chat(String),
    /// That of one turn of a chat.
    Turn(String, u64),
    /// Those whose message was pushed to a connection.
    Connection(u64),
}

impl Gone {
    spec fn takes<S>(self, chat_id: Seq<char>, route: RouteView<S>) -> bool {
        match self {
            Gone::Chat(c) => c@ == chat_id,
            Gone::Turn(c, turn) => c@ == chat_id && turn == route.turn,
            Gone::Connection(id) => route.via == Some(id),
        }
    }
}

/// What is left of some routes.
spec fn left<S>(routes: Map<Seq<char>, RouteView<S>>, gone: Gone) -> Map<Seq<char>, RouteView<S>> {
    Map::new(
        |c: Seq<char>| routes.contains_key(c) && !gone.takes(c, routes[c]),
        |c: Seq<char>| routes[c],
    )
}

fn drop_routes<S>(list: Vec<Route<S>>, gone: Gone) -> (r: Vec<Route<S>>)
    requires
        distinct(list@),
    ensures
        distinct(r@),
        routes_of(r@) == left(routes_of(list@), gone),
{
    let ghost all = list@;
    let mut out: Vec<Route<S>> = Vec::new();
    assert(routes_of(out@) =~= left(routes_of(all.take(0)), gone));
    for route in it: list
        invariant
            it.seq() == all,
            distinct(all),
            distinct(out@),
            routes_of(out@) == left(routes_of(all.take(it.index() as int)), gone),
    {
        let ghost seen = all.take(it.index() as int);
        let ghost next = all.take(it.index() + 1);
        proof {
            assert(next.drop_last() =~= seen);
            assert(next.last() == route);
            lemma_routes_of(seen, route.chat_id@);
            assert(!routes_of(seen).contains_key(route.chat_id@));
        }
        let over = match &gone {
            Gone::Chat(c) => *c.as_str() == *route.chat_id.as_str(),
            Gone::Turn(c, turn) => *c.as_str() == *route.chat_id.as_str() && *turn == route.turn,
            Gone::Connection(id) => match route.via {
                Some(v) => v == *id,
                None => false,
            },
        };
        if over {
            assert(left(routes_of(next), gone) =~= left(routes_of(seen), gone));
        } else {
            proof {
                lemma_routes_push(out@, route);
            }
            out.push(route);
            assert(routes_of(out@) =~= left(routes_of(next), gone));
        }
    }
    assert(all.take(all.len() as int) =~= all);
    out
}

/// Some routes, with that of `chat_id` marked as pushed to the connection `id`.
pub open spec fn marked<S>(
    routes: Map<Seq<char>, RouteView<S>>,
    chat_id: Seq<char>,
    id: u64,
) -> Map<Seq<char>, RouteView<S>> {
    if routes.contains_key(chat_id) {
        routes.insert(chat_id, RouteView { via: Some(id), ..routes[chat_id] })
    } else {
        routes
    }
}

fn mark_routes<S>(list: Vec<Route<S>>, chat_id: &str, id: u64) -> (r: Vec<Route<S>>)
    requires
        distinct(list@),
    ensures
        distinct(r@),
        routes_of(r@) == marked(routes_of(list@), chat_id@, id),
{
    let ghost all = list@;
    let mut out: Vec<Route<S>> = Vec::new();
    assert(routes_of(out@) =~= marked(routes_of(all.take(0)), chat_id@, id));
    for route in it: list
        invariant
            it.seq() == all,
            distinct(all),
            distinct(out@),
            routes_of(out@) == marked(routes_of(all.take(it.index() as int)), chat_id@, id),
    {
        let ghost seen = all.take(it.index() as int);
        let ghost next = all.take(it.index() + 1);
        proof {
            assert(next.drop_last() =~= seen);
            assert(next.last() == route);
            lemma_routes_of(seen, route.chat_id@);
            assert(!routes_of(seen).contains_key(route.chat_id@));
        }
        let via = if *route.chat_id.as_str() == *chat_id {
            Some(id)
        } else {
            route.via
        };
        let kept = Route { via, ..route };
        proof {
            lemma_routes_push(out@, kept);
        }
        out.push(kept);
        assert(routes_of(out@) =~= marked(routes_of(next), chat_id@, id));
    }
    assert(all.take(all.len() as int) =~= all);
    out
}

/// Knows the single adapter connection and the per-chat response routes. `A` is
/// the way into the adapter's connection, `S` the way to a waiting chat; a chat
/// learns that its route is gone when the hub lets go of its `S`.
///
/// Connections and chat turns have numbers, by which the end of one that was
/// superseded is told from the end of the one in its place.
#[verifier::reject_recursive_types(S)]
pub struct BridgeHub<A, S> {
    adapter: Option<(u64, A)>,
    routes: Vec<Route<S>>,
}

/// What a [`BridgeHub`] knows.
#[verifier::ext_equal]
#[verifier::reject_recursive_types(S)]
pub struct HubView<A, S> {
    /// The connected adapter, if any, with the number of its connection.
    pub adapter: Option<(u64, A)>,
    /// The chats that await response frames.
    pub routes: Map<Seq<char>, RouteView<S>>,
}

impl<A, S> HubView<A, S> {
    /// No adapter and no chat.
    pub open spec fn empty() -> Self {
        HubView { adapter: None, routes: Map::empty() }
    }

    /// An adapter is connected.
    pub open spec fn has_adapter(self) -> bool {
        self.adapter is Some
    }

    /// The number of the current adapter connection, if there is one.
    pub open spec fn current(self) -> Option<u64> {
        match self.adapter {
            Some(a) => Some(a.0),
            None => None,
        }
    }

    /// The hub once chat `chat_id` waits on `sink`, in the turn `turn`.
    pub open spec fn opened(self, chat_id: Seq<char>, turn: u64, sink: S) -> Self {
        HubView {
            routes: self.routes.insert(chat_id, RouteView { turn, via: None, sink }),
            ..self
        }
    }

    /// The turn `turn` of chat `chat_id` awaits response frames.
    pub open spec fn awaits(self, chat_id: Seq<char>, turn: u64) -> bool {
        self.routes.contains_key(chat_id) && self.routes[chat_id].turn == turn
    }

    /// The hub once the turn `turn` of chat `chat_id` is over.
    pub open spec fn closed(self, chat_id: Seq<char>, turn: u64) -> Self {
        if self.awaits(chat_id, turn) {
            HubView { routes: self.routes.remove(chat_id), ..self }
        } else {
            self
        }
    }

    /// The hub with `a` as its adapter, over the connection `id`.
    pub open spec fn connected(self, id: u64, a: A) -> Self {
        HubView { adapter: Some((id, a)), ..self }
    }

    /// The chat awaits the reply to a message that was pushed to the connection
    /// `id`.
    pub open spec fn waits_on(self, chat_id: Seq<char>, id: u64) -> bool {
        self.routes.contains_key(chat_id) && self.routes[chat_id].via == Some(id)
    }

    /// The hub once the connection `id` is over: without that adapter, and
    /// without the routes of the chats that wait on it.
    pub open spec fn hung_up(self, id: u64) -> Self {
        HubView {
            adapter: if self.current() == Some(id) {
                None
            } else {
                self.adapter
            },
            routes: Map::new(
                |c: Seq<char>| self.routes.contains_key(c) && !self.waits_on(c, id),
                |c: Seq<char>| self.routes[c],
            ),
        }
    }

    /// The push of a user message: the adapter and the frame for it, if an
    /// adapter is connected.
    pub open spec fn inbound(
        self,
        chat_id: Seq<char>,
        text: Seq<char>,
        message_id: Seq<char>,
    ) -> Option<(A, ToAdapterView)> {
        match self.adapter {
            Some(a) => Some((a.1, ToAdapterView::Inbound { chat_id, text, message_id })),
            None => None,
        }
    }

    /// The hub once a message of chat `chat_id` was pushed: the chat now waits
    /// on the current connection.
    pub open spec fn pushed(self, chat_id: Seq<char>) -> Self {
        match self.current() {
            Some(id) => HubView { routes: marked(self.routes, chat_id, id), ..self },
            None => self,
        }
    }

    /// Where a frame goes: to the chat that it is for, if that chat waits.
    pub open spec fn route(self, frame: FromAdapterView) -> Option<S> {
        if self.routes.contains_key(frame.chat()) {
            Some(self.routes[frame.chat()].sink)
        } else {
            None
        }
    }

    /// What to do about what came over the adapter's connection.
    pub open spec fn reaction(self, event: AdapterEvent) -> AdapterStepView<S> {
        match event {
            AdapterEvent::Frame(frame) => match self.route(frame@) {
                Some(sink) => AdapterStepView::Deliver(sink, frame@),
                None => AdapterStepView::Dropped,
            },
            AdapterEvent::Malformed(reason) => AdapterStepView::Malformed(reason@),
            AdapterEvent::Closed => AdapterStepView::Disconnected,
            AdapterEvent::Failed => AdapterStepView::Disconnected,
            AdapterEvent::Other => AdapterStepView::Ignored,
        }
    }
}

impl<A, S> View for BridgeHub<A, S> {
    type V = HubView<A, S>;

    closed spec fn view(&self) -> HubView<A, S> {
        HubView { adapter: self.adapter, routes: routes_of(self.routes@) }
    }
}

impl<A, S> BridgeHub<A, S> {
    /// No chat has two routes.
    #[verifier::type_invariant]
    spec fn wf(self) -> bool {
        distinct(self.routes@)
    }

    /// A hub without an adapter and without chats.
    pub fn new() -> (r: Self)
        ensures
            r@ == HubView::<A, S>::empty(),
    {
        BridgeHub { adapter: None, routes: Vec::new() }
    }

    /// True iff a desktop-platform adapter is currently connected.
    pub fn is_connected(&self) -> (r: bool)
        ensures
            r == self@.adapter is Some,
            r == self@.has_adapter(),
    {
        self.adapter.is_some()
    }

    /// Takes `tx` for the adapter, over the connection `id`, in place of any
    /// earlier one. Chats that wait go on waiting.
    pub fn set_adapter(&mut self, id: u64, tx: A)
        ensures
            final(self)@ == old(self)@.connected(id, tx),
    {
        proof {
            use_type_invariant(&*self);
        }
        self.adapter = Some((id, tx));
    }

    /// Goes by the end of the connection `id`: drops the routes of the chats
    /// whose message was pushed to it, and forgets the adapter, unless another
    /// connection has taken its place.
    pub fn clear_adapter(&mut self, id: u64)
        ensures
            final(self)@ == old(self)@.hung_up(id),
    {
        proof {
            use_type_invariant(&*self);
        }
        let current = match &self.adapter {
            Some(a) => a.0 == id,
            None => false,
        };
        if current {
            self.adapter = None;
        }
        let mut list: Vec<Route<S>> = Vec::new();
        std::mem::swap(&mut list, &mut self.routes);
        self.routes = drop_routes(list, Gone::Connection(id));
        assert(self@ =~= old(self)@.hung_up(id));
    }

    /// Registers `tx` as the route for `chat_id`, in the turn `turn`. Replaces
    /// any prior route for that id.
    pub fn open_chat(&mut self, chat_id: &str, turn: u64, tx: S)
        ensures
            final(self)@ == old(self)@.opened(chat_id@, turn, tx),
    {
        proof {
            use_type_invariant(&*self);
        }
        let mut list: Vec<Route<S>> = Vec::new();
        std::mem::swap(&mut list, &mut self.routes);
        let mut rest = drop_routes(list, Gone::Chat(chat_id.to_owned()));
        let route = Route { chat_id: chat_id.to_owned(), turn, via: None, sink: tx };
        proof {
            lemma_routes_push(rest@, route);
        }
        rest.push(route);
        self.routes = rest;
        assert(self@ =~= old(self)@.opened(chat_id@, turn, tx));
    }

    /// Drops the route for `chat_id` (call when the chat turn completes),
    /// unless another turn has taken the place of `turn`.
    pub fn close_chat(&mut self, chat_id: &str, turn: u64)
        ensures
            final(self)@ == old(self)@.closed(chat_id@, turn),
    {
        proof {
            use_type_invariant(&*self);
        }
        let mut list: Vec<Route<S>> = Vec::new();
        std::mem::swap(&mut list, &mut self.routes);
        self.routes = drop_routes(list, Gone::Turn(chat_id.to_owned(), turn));
        assert(self@ =~= old(self)@.closed(chat_id@, turn));
    }

    /// Frames a user message for the adapter: the frame and the connection to
    /// push it into, or `None` if no adapter is connected. From here on the
    /// chat waits on that connection.
    pub fn send_inbound(&mut self, chat_id: &str, text: &str, message_id: &str) -> (r: Option<
        (&A, ToAdapter),
    >)
        ensures
            (match r {
                Some(p) => Some((*p.0, p.1@)),
                None => None,
            }) == old(self)@.inbound(chat_id@, text@, message_id@),
            final(self)@ == old(self)@.pushed(chat_id@),
    {
        proof {
            use_type_invariant(&*self);
        }
        let current: Option<u64> = match &self.adapter {
            Some(a) => Some(a.0),
            None => None,
        };
        if let Some(id) = current {
            let mut list: Vec<Route<S>> = Vec::new();
            std::mem::swap(&mut list, &mut self.routes);
            self.routes = mark_routes(list, chat_id, id);
        }
        match &self.adapter {
            Some(a) => Some(
                (
                    &a.1,
                    ToAdapter::Inbound {
                        chat_id: chat_id.to_owned(),
                        text: text.to_owned(),
                        message_id: message_id.to_owned(),
                    },
                ),
            ),
            None => None,
        }
    }

    /// Finds the chat that awaits a response frame: its route and the frame to
    /// push into it. Frames for an unknown chat id (no in-flight turn) get
    /// `None` and are dropped.
    pub fn dispatch(&self, frame: FromAdapter) -> (r: Option<(&S, FromAdapter)>)
        ensures
            match r {
                Some(p) => self@.route(frame@) == Some(*p.0) && p.1 == frame,
                None => self@.route(frame@) is None,
            },
    {
        proof {
            use_type_invariant(self);
            lemma_routes_of(self.routes@, frame@.chat());
        }
        let mut i: usize = 0;
        while i < self.routes.len()
            invariant
                i <= self.routes.len(),
                forall|j: int| 0 <= j < i ==> (#[trigger] self.routes@[j]).chat_id@ != frame@.chat(),
            decreases self.routes.len() - i,
        {
            if *self.routes[i].chat_id.as_str() == *frame.chat_id() {
                proof {
                    use_type_invariant(self);
                    lemma_routes_of(self.routes@, frame@.chat());
                    assert(self.routes@[i as int].chat_id@ == frame@.chat());
                }
                return Some((&self.routes[i].sink, frame));
            }
            i += 1;
        }
        None
    }

    /// Goes by what came over the adapter's connection: frames are dispatched,
    /// malformed ones are passed over, and a close or a failure ends it.
    pub fn on_adapter_event(&self, event: AdapterEvent) -> (r: AdapterStep<'_, S>)
        ensures
            match event {
                AdapterEvent::Frame(frame) => match r {
                    AdapterStep::Deliver(sink, f) => self@.route(frame@) == Some(*sink) && f
                        == frame,
                    AdapterStep::Dropped => self@.route(frame@) is None,
                    _ => false,
                },
                AdapterEvent::Malformed(reason) => r == AdapterStep::<S>::Malformed(reason),
                AdapterEvent::Closed => r is Disconnected,
                AdapterEvent::Failed => r is Disconnected,
                AdapterEvent::Other => r is Ignored,
            },
            r.says() == self@.reaction(event),
    {
        match event {
            AdapterEvent::Frame(frame) => match self.dispatch(frame) {
                Some(p) => AdapterStep::Deliver(p.0, p.1),
                None => AdapterStep::Dropped,
            },
            AdapterEvent::Malformed(reason) => AdapterStep::Malformed(reason),
            AdapterEvent::Closed => AdapterStep::Disconnected,
            AdapterEvent::Failed => AdapterStep::Disconnected,
            AdapterEvent::Other => AdapterStep::Ignored,
        }
    }
}

/// Once a chat is opened its frames go to it, and the frames of every other
/// chat go where they went before.
pub proof fn opened_chat_gets_its_frames<A, S>(
    hub: HubView<A, S>,
    chat_id: Seq<char>,
    turn: u64,
    sink: S,
    frame: FromAdapterView,
)
    ensures
        hub.opened(chat_id, turn, sink).route(frame) == if frame.chat() == chat_id {
            Some(sink)
        } else {
            hub.route(frame)
        },
{
}

/// Once the turn that a chat waits in is over, the chat's frames are dropped,
/// and the frames of every other chat go where they went before.
pub proof fn closed_chat_gets_nothing<A, S>(
    hub: HubView<A, S>,
    chat_id: Seq<char>,
    turn: u64,
    frame: FromAdapterView,
)
    requires
        hub.awaits(chat_id, turn),
    ensures
        hub.closed(chat_id, turn).route(frame) == if frame.chat() == chat_id {
            None::<S>
        } else {
            hub.route(frame)
        },
{
}

/// A turn that opens a chat and closes it leaves the hub as it was, but for the
/// route that it replaced.
pub proof fn open_then_close<A, S>(hub: HubView<A, S>, chat_id: Seq<char>, turn: u64, sink: S)
    ensures
        hub.opened(chat_id, turn, sink).closed(chat_id, turn) == (HubView {
            routes: hub.routes.remove(chat_id),
            ..hub
        }),
        !hub.routes.contains_key(chat_id) ==> hub.opened(chat_id, turn, sink).closed(chat_id, turn)
            == hub,
{
    let after = hub.opened(chat_id, turn, sink).closed(chat_id, turn);
    assert(after =~= HubView { routes: hub.routes.remove(chat_id), ..hub });
    if !hub.routes.contains_key(chat_id) {
        assert(after =~= hub);
    }
}

/// The end of a turn whose route was replaced takes nothing away from the turn
/// in its place.
pub proof fn superseded_turn_closes_nothing<A, S>(
    hub: HubView<A, S>,
    chat_id: Seq<char>,
    older: u64,
    newer: u64,
    sink: S,
)
    requires
        older != newer,
    ensures
        hub.opened(chat_id, newer, sink).closed(chat_id, older) == hub.opened(
            chat_id,
            newer,
            sink,
        ),
{
}

/// An adapter that connects, in place of another or not, moves no frame: the
/// chats that wait go on waiting, and get its frames.
pub proof fn new_adapter_keeps_the_routes<A, S>(
    hub: HubView<A, S>,
    id: u64,
    a: A,
    frame: FromAdapterView,
)
    ensures
        hub.connected(id, a).adapter == Some((id, a)),
        hub.connected(id, a).route(frame) == hub.route(frame),
{
}

/// The end of a connection that another has superseded leaves the hub
/// connected, and takes no route from a chat that does not wait on it.
pub proof fn superseded_close_leaves_the_hub_connected<A, S>(
    hub: HubView<A, S>,
    older: u64,
    newer: u64,
    a: A,
    frame: FromAdapterView,
)
    requires
        older != newer,
    ensures
        hub.connected(newer, a).hung_up(older).adapter == Some((newer, a)),
        !hub.waits_on(frame.chat(), older) ==> hub.connected(newer, a).hung_up(older).route(frame)
            == hub.route(frame),
{
}

/// A chat whose message was pushed waits on the connection that was current
/// then. Once that connection ends, the chat's route is gone, whatever other
/// adapter has connected since; and the routes of the chats that do not wait on
/// it stay.
pub proof fn chat_loses_its_route_with_its_connection<A, S>(
    hub: HubView<A, S>,
    chat_id: Seq<char>,
    turn: u64,
    sink: S,
    id: u64,
    other: u64,
    a: A,
    frame: FromAdapterView,
)
    requires
        hub.current() == Some(id),
    ensures
        ({
            let sent = hub.opened(chat_id, turn, sink).pushed(chat_id);
            &&& sent.waits_on(chat_id, id)
            &&& sent.awaits(chat_id, turn)
            &&& !sent.hung_up(id).routes.contains_key(chat_id)
            &&& sent.hung_up(id).adapter is None
            &&& !sent.connected(other, a).hung_up(id).routes.contains_key(chat_id)
            &&& !sent.waits_on(frame.chat(), id) ==> sent.hung_up(id).route(frame) == hub.route(
                frame,
            )
        }),
{
}

/// A chat that opens, pushes a message or closes touches no adapter, and a push
/// moves no frame.
pub proof fn chats_leave_the_adapter_alone<A, S>(
    hub: HubView<A, S>,
    chat_id: Seq<char>,
    turn: u64,
    sink: S,
    frame: FromAdapterView,
)
    ensures
        hub.opened(chat_id, turn, sink).adapter == hub.adapter,
        hub.pushed(chat_id).adapter == hub.adapter,
        hub.closed(chat_id, turn).adapter == hub.adapter,
        hub.pushed(chat_id).route(frame) == hub.route(frame),
{
}

/// Every frame is for the chat that it names.
pub proof fn frames_name_their_chat(c: Seq<char>, text: Seq<char>)
    ensures
        (FromAdapterView::Draft { chat_id: c, text }).chat() == c,
        (FromAdapterView::Send { chat_id: c, text }).chat() == c,
        (FromAdapterView::Typing { chat_id: c }).chat() == c,
{
}

/// A hub begins without an adapter and without chats. It has one as soon as one
/// connects, and until that connection ends.
pub proof fn hub_knows_its_adapter<A, S>(hub: HubView<A, S>, id: u64, a: A, other: u64)
    ensures
        !HubView::<A, S>::empty().has_adapter(),
        HubView::<A, S>::empty().routes.dom().is_empty(),
        hub.connected(id, a).has_adapter(),
        hub.connected(id, a).current() == Some(id),
        !hub.connected(id, a).hung_up(id).has_adapter(),
        other != id ==> hub.connected(id, a).hung_up(other).has_adapter(),
        !hub.has_adapter() ==> hub.current() is None && !hub.hung_up(other).has_adapter(),
{
}

/// A user message is pushed to the adapter that is connected, with its text, its
/// chat and its number as they are, and to none where none is.
pub proof fn message_is_pushed_whole<A, S>(
    hub: HubView<A, S>,
    id: u64,
    a: A,
    chat: Seq<char>,
    message: Seq<char>,
    number: Seq<char>,
)
    ensures
        hub.connected(id, a).inbound(chat, message, number) matches Some((
            to,
            ToAdapterView::Inbound { chat_id, text, message_id },
        )) && to == a && chat_id == chat && text == message && message_id == number,
        !hub.has_adapter() ==> hub.inbound(chat, message, number) is None,
{
}

/// A push makes its own chat wait on the current connection, where the chat has
/// a route at all, and changes nothing about any other chat: neither which turn
/// waits, nor on which connection. Without an adapter it changes nothing.
pub proof fn push_touches_its_own_chat_only<A, S>(
    hub: HubView<A, S>,
    chat_id: Seq<char>,
    other: Seq<char>,
    id: u64,
    turn: u64,
)
    ensures
        hub.pushed(chat_id).awaits(other, turn) == hub.awaits(other, turn),
        other != chat_id ==> hub.pushed(chat_id).waits_on(other, id) == hub.waits_on(other, id),
        hub.has_adapter() ==> (hub.pushed(chat_id).waits_on(chat_id, id) <==> hub.current() == Some(
            id,
        ) && hub.routes.contains_key(chat_id)),
        !hub.has_adapter() ==> hub.pushed(chat_id) == hub,
{
}

/// A chat that opens waits in its turn and in no other, and on no connection
/// yet; the end of a turn or of a connection takes no other chat's wait away.
pub proof fn chats_wait_in_their_turn<A, S>(
    hub: HubView<A, S>,
    chat_id: Seq<char>,
    turn: u64,
    sink: S,
    other: Seq<char>,
    n: u64,
)
    ensures
        hub.opened(chat_id, turn, sink).awaits(chat_id, n) <==> n == turn,
        !hub.opened(chat_id, turn, sink).waits_on(chat_id, n),
        other != chat_id ==> {
            &&& hub.opened(chat_id, turn, sink).awaits(other, n) == hub.awaits(other, n)
            &&& hub.opened(chat_id, turn, sink).waits_on(other, n) == hub.waits_on(other, n)
            &&& hub.closed(chat_id, turn).awaits(other, n) == hub.awaits(other, n)
            &&& hub.closed(chat_id, turn).waits_on(other, n) == hub.waits_on(other, n)
        },
        !hub.closed(chat_id, turn).awaits(chat_id, turn),
        !hub.waits_on(other, n) ==> forall|t: u64| #[trigger]
            hub.hung_up(n).awaits(other, t) == hub.awaits(other, t),
        !hub.hung_up(n).waits_on(other, n),
{
}

/// A frame is delivered whole to the chat that waits for it and dropped where
/// none does; a message that is no frame is told with its reason; a close and a
/// failure end the connection, and nothing else does.
pub proof fn adapter_events_are_sorted<A, S>(
    hub: HubView<A, S>,
    frame: FromAdapter,
    reason: String,
    turn: u64,
    sink: S,
)
    ensures
        hub.opened(frame@.chat(), turn, sink).reaction(AdapterEvent::Frame(frame))
            == AdapterStepView::Deliver(sink, frame@),
        !hub.routes.contains_key(frame@.chat()) ==> hub.reaction(
            AdapterEvent::Frame(frame),
        ) is Dropped,
        hub.reaction(AdapterEvent::Malformed(reason)) == AdapterStepView::<S>::Malformed(reason@),
        hub.reaction(AdapterEvent::Closed) is Disconnected,
        hub.reaction(AdapterEvent::Failed) is Disconnected,
        hub.reaction(AdapterEvent::Other) is Ignored,
{
}

} // verus!
