//! The daemon's side of one connection from a local client, and how the
//! daemon takes its socket.
//!
//! Requests run side by side on a connection, so a long streaming chat does not
//! block a concurrent `cancel`. `subscribe` opts a connection into broadcast
//! events.

use vstd::hash_map::StringHashMap;
use vstd::prelude::*;
use vstd::string::*;

use super::lines::holds_message;
use super::protocol::{ClientMessage, DaemonMessage, DaemonMessageView};
use crate::text::{blank, is_white_space, lossy, lossy_text};

verus! {

/// Capacity of the per-connection outbound queue.
pub const CONN_QUEUE: usize = 128;

/// The permissions of the socket: its owner alone may read and write.
pub const SOCKET_MODE: u32 = 0o600;

/// What a message means to the connection that it came in on.
#[derive(Debug, Clone, PartialEq, Eq)]
pub enum Inbound {
    /// The client wants broadcasts from now on.
    Subscribed,
    /// Cancel the request in flight under this id, if there is one.
    Cancel(String),
    /// A request for the handler, to be kept in flight under its id.
    Request { request_id: Option<String>, msg: ClientMessage },
}

/// What a line that was read calls for.
#[derive(Debug, Clone, PartialEq, Eq)]
pub enum LineStep {
    /// Nothing: the line is blank.
    Skip,
    /// Send this answer.
    Answer(DaemonMessage),
    /// Go by the message that it holds.
    Take(Inbound),
}

/// What can happen on the writing side of a connection.
#[derive(Debug, Clone, PartialEq, Eq)]
pub enum Outgoing {
    /// A request's handler sent a message.
    Direct(DaemonMessage),
    /// The client is gone and no handler is left.
    Finished,
    /// The daemon broadcast a message.
    Broadcast(DaemonMessage),
    /// So many broadcasts were missed.
    Lagged(u64),
    /// There will be no more broadcasts.
    BroadcastsOver,
}

/// What the writing side does about it.
#[derive(Debug, Clone, PartialEq, Eq)]
pub enum WriteStep {
    /// Write the message.
    Write(DaemonMessage),
    /// Write nothing.
    Pass,
    /// Write nothing, and note that so many broadcasts were missed.
    NoteLag(u64),
    /// Write nothing, and wait for broadcasts no more.
    StopBroadcasts,
    /// Stop writing.
    End,
}

/// One connection: whether it takes broadcasts, and its requests in flight,
/// each with its number and with what it takes to cancel it.
#[verifier::reject_recursive_types(T)]
pub struct Connection<T> {
    subscribed: bool,
    in_flight: StringHashMap<(u64, T)>,
}

/// What a [`Connection`] knows.
#[verifier::ext_equal]
#[verifier::reject_recursive_types(T)]
pub struct ConnectionView<T> {
    pub subscribed: bool,
    pub in_flight: Map<Seq<char>, (u64, T)>,
}

impl<T> View for Connection<T> {
    type V = ConnectionView<T>;

    closed spec fn view(&self) -> ConnectionView<T> {
        ConnectionView { subscribed: self.subscribed, in_flight: self.in_flight@ }
    }
}

impl<T> ConnectionView<T> {
    /// A connection that takes no broadcasts and has nothing in flight.
    pub open spec fn fresh() -> Self {
        ConnectionView { subscribed: false, in_flight: Map::empty() }
    }

    /// The connection after `msg` came in.
    pub open spec fn received(self, msg: ClientMessage) -> Self {
        ConnectionView { subscribed: self.subscribed || msg is Subscribe, ..self }
    }

    /// The connection after a line was read that gave `parsed`.
    pub open spec fn after_line(self, line: Seq<char>, parsed: Result<ClientMessage, String>) -> Self {
        match parsed {
            Ok(msg) => if blank(line) {
                self
            } else {
                self.received(msg)
            },
            Err(_) => self,
        }
    }

    /// The connection once the request `id`, numbered `number`, is under way.
    /// A request without an id leaves no trace.
    pub open spec fn started(self, id: Option<Seq<char>>, number: u64, token: T) -> Self {
        match id {
            Some(i) => ConnectionView {
                in_flight: self.in_flight.insert(i, (number, token)),
                ..self
            },
            None => self,
        }
    }

    /// The request `number` is the one in flight under `id`.
    pub open spec fn holds(self, id: Seq<char>, number: u64) -> bool {
        self.in_flight.contains_key(id) && self.in_flight[id].0 == number
    }

    /// The connection once the request `id`, numbered `number`, is done.
    pub open spec fn finished(self, id: Option<Seq<char>>, number: u64) -> Self {
        match id {
            Some(i) => if self.holds(i, number) {
                ConnectionView { in_flight: self.in_flight.remove(i), ..self }
            } else {
                self
            },
            None => self,
        }
    }

    /// What cancels the request `id`.
    pub open spec fn target(self, id: Seq<char>) -> Option<T> {
        if self.in_flight.contains_key(id) {
            Some(self.in_flight[id].1)
        } else {
            None
        }
    }
}

/// What `msg` means to the connection is `inbound`: `subscribe` and `cancel`
/// are its own business, the rest is for the handler.
pub open spec fn means(inbound: Inbound, msg: ClientMessage) -> bool {
    match msg {
        ClientMessage::Subscribe { .. } => inbound is Subscribed,
        ClientMessage::Cancel { request_id } => inbound == Inbound::Cancel(request_id),
        _ => inbound matches Inbound::Request { request_id: id, msg: m } && m == msg
            && id.deep_view() == msg.correlation(),
    }
}

/// The answer to a line that is no request.
pub open spec fn malformed_answer(reason: Seq<char>) -> DaemonMessageView {
    DaemonMessageView::Error { request_id: None, message: "malformed request: "@ + reason }
}

/// `step` is what a line calls for that gave `parsed`.
pub open spec fn fits_line(
    step: LineStep,
    line: Seq<char>,
    parsed: Result<ClientMessage, String>,
) -> bool {
    if blank(line) {
        step is Skip
    } else {
        match parsed {
            Ok(msg) => step matches LineStep::Take(inbound) && means(inbound, msg),
            Err(reason) => step matches LineStep::Answer(m) && m@ == malformed_answer(reason@),
        }
    }
}

/// What the writing side does about an event.
pub open spec fn write_step(subscribed: bool, event: Outgoing) -> WriteStep {
    match event {
        Outgoing::Direct(m) => WriteStep::Write(m),
        Outgoing::Finished => WriteStep::End,
        Outgoing::Broadcast(m) => if subscribed {
            WriteStep::Write(m)
        } else {
            WriteStep::Pass
        },
        Outgoing::Lagged(n) => WriteStep::NoteLag(n),
        Outgoing::BroadcastsOver => WriteStep::StopBroadcasts,
    }
}

/// Answers a line that does not parse; the connection stays usable.
pub fn malformed(reason: &str) -> (r: DaemonMessage)
    ensures
        r@ == malformed_answer(reason@),
{
    DaemonMessage::Error {
        request_id: None,
        message: "malformed request: ".to_owned().concat(reason),
    }
}

impl<T> Connection<T> {
    /// A new connection.
    pub fn new() -> (r: Self)
        ensures
            r@ == ConnectionView::<T>::fresh(),
    {
        Connection { subscribed: false, in_flight: StringHashMap::new() }
    }

    /// Takes in a message: `subscribe` and `cancel` are the connection's own
    /// business, the rest is for the handler.
    pub fn receive(&mut self, msg: ClientMessage) -> (r: Inbound)
        ensures
            final(self)@ == old(self)@.received(msg),
            means(r, msg),
    {
        match msg {
            ClientMessage::Subscribe { .. } => {
                self.subscribed = true;
                Inbound::Subscribed
            },
            ClientMessage::Cancel { request_id } => Inbound::Cancel(request_id),
            other => {
                let request_id = match other.request_id() {
                    Some(id) => Some(id.to_owned()),
                    None => None,
                };
                Inbound::Request { request_id, msg: other }
            },
        }
    }

    /// Goes by a line that was read, where reading it as a message gave
    /// `parsed`. A blank line does not count, and one that is no message is
    /// answered and changes nothing.
    pub fn on_line(&mut self, line: &str, parsed: Result<ClientMessage, String>) -> (r: LineStep)
        ensures
            blank(line@) ==> r is Skip && final(self)@ == old(self)@,
            !blank(line@) ==> match parsed {
                Ok(msg) => {
                    &&& final(self)@ == old(self)@.received(msg)
                    &&& r matches LineStep::Take(inbound) && means(inbound, msg)
                },
                Err(reason) => {
                    &&& final(self)@ == old(self)@
                    &&& r matches LineStep::Answer(m) && m@ == malformed_answer(reason@)
                },
            },
            final(self)@ == old(self)@.after_line(line@, parsed),
            fits_line(r, line@, parsed),
    {
        if !holds_message(line) {
            return LineStep::Skip;
        }
        match parsed {
            Ok(msg) => LineStep::Take(self.receive(msg)),
            Err(reason) => LineStep::Answer(malformed(reason.as_str())),
        }
    }

    /// Keeps a request in flight, with what cancels it. `number` tells it from
    /// other requests under the same id.
    pub fn start(&mut self, request_id: &Option<String>, number: u64, token: T)
        ensures
            final(self)@ == old(self)@.started(request_id.deep_view(), number, token),
    {
        if let Some(id) = request_id {
            self.in_flight.insert(id.clone(), (number, token));
        }
    }

    /// Forgets a request that is done, unless a later one is in flight under
    /// the same id.
    pub fn finish(&mut self, request_id: &Option<String>, number: u64)
        ensures
            final(self)@ == old(self)@.finished(request_id.deep_view(), number),
    {
        if let Some(id) = request_id {
            let own = match self.in_flight.get(id.as_str()) {
                Some(entry) => entry.0 == number,
                None => false,
            };
            if own {
                self.in_flight.remove(id.as_str());
            }
        }
    }

    /// What cancels the request in flight under this id.
    pub fn cancel_target(&self, request_id: &str) -> (r: Option<&T>)
        ensures
            r is Some <==> self@.target(request_id@) is Some,
            r matches Some(t) ==> Some(*t) == self@.target(request_id@),
    {
        match self.in_flight.get(request_id) {
            Some(entry) => Some(&entry.1),
            None => None,
        }
    }

    /// Goes by what happened on the writing side. Direct messages are always
    /// written, broadcasts only to those who asked for them; and missed or
    /// ended broadcasts never end the connection.
    pub fn on_outgoing(&self, event: Outgoing) -> (r: WriteStep)
        ensures
            r == write_step(self@.subscribed, event),
    {
        match event {
            Outgoing::Direct(m) => WriteStep::Write(m),
            Outgoing::Finished => WriteStep::End,
            Outgoing::Broadcast(m) => if self.takes_broadcasts() {
                WriteStep::Write(m)
            } else {
                WriteStep::Pass
            },
            Outgoing::Lagged(n) => WriteStep::NoteLag(n),
            Outgoing::BroadcastsOver => WriteStep::StopBroadcasts,
        }
    }

    /// Is a broadcast to be written to this connection?
    pub fn takes_broadcasts(&self) -> (r: bool)
        ensures
            r == self@.subscribed,
    {
        self.subscribed
    }
}

/// What to do about the path of the socket before binding it.
#[derive(Debug, Clone, PartialEq, Eq)]
pub enum SocketStep {
    /// Nothing is in the way.
    Bind,
    /// Remove the leftover of a previous run, then bind.
    RemoveStale,
    /// Another daemon listens there: fail with this message.
    InUse(String),
}

/// What a [`SocketStep`] says.
#[verifier::ext_equal]
pub enum SocketStepView {
    Bind,
    RemoveStale,
    InUse(Seq<char>),
}

impl View for SocketStep {
    type V = SocketStepView;

    open spec fn view(&self) -> SocketStepView {
        match self {
            SocketStep::Bind => SocketStepView::Bind,
            SocketStep::RemoveStale => SocketStepView::RemoveStale,
            SocketStep::InUse(m) => SocketStepView::InUse(m@),
        }
    }
}

/// What to do about the path of the socket.
pub open spec fn socket_step(exists: bool, live: bool, path: Seq<u8>) -> SocketStepView {
    if !exists {
        SocketStepView::Bind
    } else if live {
        SocketStepView::InUse("a hermes-dms daemon is already listening on "@ + lossy(path))
    } else {
        SocketStepView::RemoveStale
    }
}

/// Removes a leftover socket file, but refuses to bind over one that still has
/// a live listener behind it. `exists` tells whether there is a file at `path`,
/// `live` whether connecting to it succeeds.
pub fn prepare_socket_path(exists: bool, live: bool, path: &[u8]) -> (r: SocketStep)
    ensures
        r@ == socket_step(exists, live, path@),
{
    if !exists {
        SocketStep::Bind
    } else if live {
        SocketStep::InUse(
            "a hermes-dms daemon is already listening on ".to_owned().concat(
                lossy_text(path).as_str(),
            ),
        )
    } else {
        SocketStep::RemoveStale
    }
}

/// Cancelling under the id of a request that is under way reaches that request,
/// and starting it leaves what the other ids reach as it was.
pub proof fn started_request_can_be_cancelled<T>(
    c: ConnectionView<T>,
    id: Seq<char>,
    number: u64,
    token: T,
    other: Seq<char>,
)
    ensures
        c.started(Some(id), number, token).target(id) == Some(token),
        other != id ==> c.started(Some(id), number, token).target(other) == c.target(other),
{
}

/// Cancelling under the id of a request that is done reaches nothing, and
/// finishing it leaves what the other ids reach as it was.
pub proof fn finished_request_is_out_of_reach<T>(
    c: ConnectionView<T>,
    id: Seq<char>,
    number: u64,
    other: Seq<char>,
)
    requires
        c.holds(id, number),
    ensures
        c.finished(Some(id), number).target(id) is None,
        other != id ==> c.finished(Some(id), number).target(other) == c.target(other),
{
}

/// A request that is done leaves a later one under the same id within reach.
pub proof fn later_request_stays_within_reach<T>(
    c: ConnectionView<T>,
    id: Seq<char>,
    earlier: u64,
    later: u64,
    token: T,
)
    requires
        earlier != later,
    ensures
        c.started(Some(id), later, token).finished(Some(id), earlier).target(id) == Some(token),
{
}

/// A request that comes and goes leaves the connection as it was, unless an
/// earlier one with the same id was still in flight.
pub proof fn request_leaves_no_trace<T>(
    c: ConnectionView<T>,
    id: Option<Seq<char>>,
    number: u64,
    token: T,
)
    requires
        id matches Some(i) ==> !c.in_flight.contains_key(i),
    ensures
        c.started(id, number, token).finished(id, number) == c,
{
    if let Some(i) = id {
        assert(c.started(id, number, token).finished(id, number) =~= c);
    }
}

/// Incoming messages put nothing in flight and take nothing out.
pub proof fn receiving_keeps_requests_in_flight<T>(c: ConnectionView<T>, msg: ClientMessage)
    ensures
        c.received(msg).in_flight == c.in_flight,
{
}

/// The connection after a series of messages.
pub open spec fn received_all<T>(c: ConnectionView<T>, msgs: Seq<ClientMessage>) -> ConnectionView<
    T,
>
    decreases msgs.len(),
{
    if msgs.len() == 0 {
        c
    } else {
        received_all(c, msgs.drop_last()).received(msgs.last())
    }
}

/// A connection takes broadcasts exactly when its client has asked for them:
/// a subscription is never lost, and nobody is subscribed unasked. Requests
/// that start or finish make no difference.
pub proof fn only_subscribers_take_broadcasts<T>(msgs: Seq<ClientMessage>)
    ensures
        received_all(ConnectionView::<T>::fresh(), msgs).subscribed <==> exists|i: int|
            0 <= i < msgs.len() && (#[trigger] msgs[i]) is Subscribe,
        forall|c: ConnectionView<T>, id: Option<Seq<char>>, number: u64, token: T|
            #![trigger c.started(id, number, token)]
            c.started(id, number, token).subscribed == c.subscribed,
        forall|c: ConnectionView<T>, id: Option<Seq<char>>, number: u64|
            #![trigger c.finished(id, number)]
            c.finished(id, number).subscribed == c.subscribed,
    decreases msgs.len(),
{
    if msgs.len() > 0 {
        let head = msgs.drop_last();
        only_subscribers_take_broadcasts::<T>(head);
        if exists|i: int| 0 <= i < head.len() && (#[trigger] head[i]) is Subscribe {
            let i = choose|i: int| 0 <= i < head.len() && (#[trigger] head[i]) is Subscribe;
            assert(msgs[i] is Subscribe);
        }
        if exists|i: int| 0 <= i < msgs.len() && (#[trigger] msgs[i]) is Subscribe {
            let i = choose|i: int| 0 <= i < msgs.len() && (#[trigger] msgs[i]) is Subscribe;
            if i < head.len() {
                assert(head[i] is Subscribe);
            }
        }
        if msgs.last() is Subscribe {
            assert(msgs[msgs.len() - 1] is Subscribe);
        }
    }
}

/// A subscription and a cancel are the connection's own business: the first
/// means nothing else, the second the id that it names. Every other message is a
/// request for the handler, as it came, under the id that it carries.
pub proof fn messages_mean_one_thing(
    msg: ClientMessage,
    id: String,
    any: Option<String>,
    inbound: Inbound,
)
    ensures
        means(inbound, ClientMessage::Subscribe { request_id: any }) <==> inbound is Subscribed,
        means(inbound, ClientMessage::Cancel { request_id: id }) <==> inbound == Inbound::Cancel(id),
        !(msg is Subscribe) && !(msg is Cancel) && means(inbound, msg) ==> (inbound matches
            Inbound::Request { request_id, msg: m } && m == msg && request_id.deep_view()
            == msg.correlation()),
{
}

/// A line with text in it is gone by exactly when it is a message: else it is
/// answered by an error to nobody in particular that ends in the whole reason,
/// and nothing changes. A line without text calls for nothing.
pub proof fn lines_are_gone_by<T>(
    c: ConnectionView<T>,
    line: Seq<char>,
    msg: ClientMessage,
    reason: String,
    step: LineStep,
)
    ensures
        ({
            let has_text = exists|i: int|
                0 <= i < line.len() && !is_white_space(#[trigger] line[i]);
            &&& has_text && fits_line(step, line, Ok(msg)) ==> (step matches LineStep::Take(inbound)
                && means(inbound, msg))
            &&& has_text ==> c.after_line(line, Ok(msg)) == c.received(msg)
            &&& has_text && fits_line(step, line, Err(reason)) ==> (step matches LineStep::Answer(m)
                && m@ == (DaemonMessageView::Error {
                request_id: None,
                message: "malformed request: "@ + reason@,
            }))
            &&& c.after_line(line, Err(reason)) == c
            &&& !has_text && fits_line(step, line, Ok(msg)) ==> step is Skip
            &&& !has_text && fits_line(step, line, Err(reason)) ==> step is Skip
            &&& !has_text ==> c.after_line(line, Ok(msg)) == c
        }),
{
}

/// What a handler sends is written to every connection, as it is; a broadcast is
/// written, as it is, to subscribers and to nobody else. Only the end of the
/// client's requests ends the writing; missed broadcasts are counted, and the end
/// of the broadcasts is no end.
pub proof fn broadcasts_reach_subscribers_only(subscribed: bool, m: DaemonMessage, n: u64)
    ensures
        write_step(subscribed, Outgoing::Direct(m)) == WriteStep::Write(m),
        write_step(true, Outgoing::Broadcast(m)) == WriteStep::Write(m),
        write_step(false, Outgoing::Broadcast(m)) is Pass,
        write_step(subscribed, Outgoing::Finished) is End,
        write_step(subscribed, Outgoing::Lagged(n)) == WriteStep::NoteLag(n),
        write_step(subscribed, Outgoing::BroadcastsOver) is StopBroadcasts,
{
}

/// A daemon never binds over a live one, which it names by its path; it removes
/// a file only where nobody listens behind it; and a free path is bound at once.
pub proof fn live_socket_is_left_alone(live: bool, path: Seq<u8>)
    ensures
        socket_step(true, true, path) == SocketStepView::InUse(
            "a hermes-dms daemon is already listening on "@ + lossy(path),
        ),
        socket_step(true, false, path) is RemoveStale,
        socket_step(false, live, path) is Bind,
{
}

/// A connection begins without broadcasts and with nothing in flight. A request
/// under way is held under its number and under no other, one without an id is
/// not held at all, and the end of another changes nothing.
pub proof fn requests_are_held_by_number<T>(
    c: ConnectionView<T>,
    id: Seq<char>,
    number: u64,
    other: u64,
    token: T,
)
    ensures
        !ConnectionView::<T>::fresh().subscribed,
        ConnectionView::<T>::fresh().in_flight.dom().is_empty(),
        c.started(Some(id), number, token).holds(id, other) <==> other == number,
        c.started(None, number, token) == c,
        c.finished(None, number) == c,
        !c.holds(id, number) ==> c.finished(Some(id), number) == c,
        c.target(id) is Some <==> c.in_flight.contains_key(id),
{
}

/// The socket is its owner's alone: the owner may read and write, and nobody
/// else may do anything.
pub proof fn socket_is_its_owners()
    ensures
        SOCKET_MODE / 64 == 6,
        SOCKET_MODE % 64 == 0,
{
}

} // verus!
