//! What `hermes-dms-ctl` makes of the daemon's messages: one-shot chats and
//! status queries.

use vstd::prelude::*;
use vstd::string::*;

use crate::ids::{is_uuid_text, random_uuid_text};
use crate::ipc::protocol::{DaemonMessage, DaemonMessageView};

verus! {

/// A fresh id for a request.
pub fn new_request_id() -> (r: String)
    ensures
        is_uuid_text(r@),
{
    random_uuid_text()
}

/// The steps of a command that can fail before the daemon answers.
#[derive(Debug, Clone, Copy, PartialEq, Eq, Structural)]
pub enum Stage {
    Connect,
    SendChat,
    Subscribe,
    RequestStatus,
}

/// What the message about a failed step begins with.
pub open spec fn stage_text(stage: Stage) -> Seq<char> {
    match stage {
        Stage::Connect => "connecting to daemon socket: "@,
        Stage::SendChat => "sending chat: "@,
        Stage::Subscribe => "subscribing: "@,
        Stage::RequestStatus => "requesting status: "@,
    }
}

/// The words of the message about a failed step.
pub open spec fn failure_text(stage: Stage, reason: Seq<char>) -> Seq<char> {
    stage_text(stage) + reason
}

/// The message about a failed step.
pub fn stage_failed(stage: Stage, reason: &str) -> (r: String)
    ensures
        r@ == failure_text(stage, reason@),
{
    let text = match stage {
        Stage::Connect => "connecting to daemon socket: ",
        Stage::SendChat => "sending chat: ",
        Stage::Subscribe => "subscribing: ",
        Stage::RequestStatus => "requesting status: ",
    };
    text.to_owned().concat(reason)
}

/// What to do about a message.
#[derive(Debug, Clone, PartialEq, Eq)]
pub enum CtlStep {
    /// It is not for this command: wait for the next one.
    Ignore,
    /// Print the text as it is and wait for the next message.
    Print(String),
    /// Print the text as it is and exit with success.
    Finish(String),
    /// Exit with this error.
    Fail(String),
}

/// What a [`CtlStep`] says.
#[verifier::ext_equal]
pub enum CtlStepView {
    Ignore,
    Print(Seq<char>),
    Finish(Seq<char>),
    Fail(Seq<char>),
}

impl View for CtlStep {
    type V = CtlStepView;

    open spec fn view(&self) -> CtlStepView {
        match self {
            CtlStep::Ignore => CtlStepView::Ignore,
            CtlStep::Print(t) => CtlStepView::Print(t@),
            CtlStep::Finish(t) => CtlStepView::Finish(t@),
            CtlStep::Fail(t) => CtlStepView::Fail(t@),
        }
    }
}

/// What the daemon sends next, as far as anything comes.
pub open spec fn incoming(msg: Option<DaemonMessage>) -> Option<DaemonMessageView> {
    match msg {
        Some(m) => Some(m@),
        None => None,
    }
}

/// A one-shot chat that waits for its reply.
#[derive(Debug, Clone, PartialEq, Eq)]
pub struct ChatWatch {
    request_id: String,
    /// Some of the reply was printed already.
    streamed: bool,
}

/// What a [`ChatWatch`] knows.
#[verifier::ext_equal]
pub struct ChatWatchView {
    pub request_id: Seq<char>,
    pub streamed: bool,
}

impl View for ChatWatch {
    type V = ChatWatchView;

    closed spec fn view(&self) -> ChatWatchView {
        ChatWatchView { request_id: self.request_id@, streamed: self.streamed }
    }
}

impl ChatWatchView {
    /// What to do about the next message; `None` where the daemon hung up.
    pub open spec fn step(self, msg: Option<DaemonMessageView>) -> CtlStepView {
        match msg {
            None => CtlStepView::Fail("daemon closed the connection before completing"@),
            Some(DaemonMessageView::Delta { request_id, content }) => if request_id
                == self.request_id {
                CtlStepView::Print(content)
            } else {
                CtlStepView::Ignore
            },
            Some(DaemonMessageView::ChatComplete { request_id, content, .. }) => if request_id
                == self.request_id {
                CtlStepView::Finish(
                    if self.streamed {
                        seq!['\n']
                    } else {
                        content.push('\n')
                    },
                )
            } else {
                CtlStepView::Ignore
            },
            Some(DaemonMessageView::Error { request_id, message }) => if request_id is None
                || request_id == Some(self.request_id) {
                CtlStepView::Fail(message)
            } else {
                CtlStepView::Ignore
            },
            Some(_) => CtlStepView::Ignore,
        }
    }

    /// The watch after the message: it notes whether any text was printed.
    pub open spec fn after(self, msg: Option<DaemonMessageView>) -> Self {
        ChatWatchView {
            streamed: self.streamed || (self.step(msg) matches CtlStepView::Print(t) && t.len()
                > 0),
            ..self
        }
    }
}

impl ChatWatch {
    /// Waits for the reply to the request `request_id`.
    pub fn new(request_id: String) -> (r: Self)
        ensures
            r@ == (ChatWatchView { request_id: request_id@, streamed: false }),
    {
        ChatWatch { request_id, streamed: false }
    }

    /// Prints deltas as they arrive and ends on completion. If nothing was
    /// streamed, prints the final content; always ends with a newline.
    pub fn on_message(&mut self, msg: Option<DaemonMessage>) -> (r: CtlStep)
        ensures
            r@ == old(self)@.step(incoming(msg)),
            final(self)@ == old(self)@.after(incoming(msg)),
    {
        match msg {
            None => CtlStep::Fail("daemon closed the connection before completing".to_owned()),
            Some(m) => match m {
                DaemonMessage::Delta { request_id, content } => if request_id == self.request_id {
                    if !content.as_str().is_empty() {
                        self.streamed = true;
                    }
                    CtlStep::Print(content)
                } else {
                    CtlStep::Ignore
                },
                DaemonMessage::ChatComplete { request_id, content, .. } => if request_id
                    == self.request_id {
                    let mut text = if self.streamed {
                        String::new()
                    } else {
                        content
                    };
                    text.push('\n');
                    assert(self.streamed ==> text@ =~= seq!['\n']);
                    CtlStep::Finish(text)
                } else {
                    CtlStep::Ignore
                },
                DaemonMessage::Error { request_id, message } => {
                    let mine = match &request_id {
                        Some(id) => *id == self.request_id,
                        None => true,
                    };
                    if mine {
                        CtlStep::Fail(message)
                    } else {
                        CtlStep::Ignore
                    }
                },
                // Tool progress, broadcasts, other requests.
                _ => CtlStep::Ignore,
            },
        }
    }
}

/// What a status query makes of the next message; `None` where the daemon hung
/// up. The first status and the first error decide, whoever they are for.
pub open spec fn status_step(msg: Option<DaemonMessageView>) -> CtlStepView {
    match msg {
        None => CtlStepView::Fail("daemon closed the connection"@),
        Some(DaemonMessageView::Status { hermes, daemon, .. }) => CtlStepView::Finish(
            "daemon: "@ + daemon + "\nhermes: "@ + hermes + "\n"@,
        ),
        Some(DaemonMessageView::Error { message, .. }) => CtlStepView::Fail(message),
        Some(_) => CtlStepView::Ignore,
    }
}

/// Goes by the next message of a one-shot status query.
pub fn on_status_message(msg: Option<DaemonMessage>) -> (r: CtlStep)
    ensures
        r@ == status_step(incoming(msg)),
{
    match msg {
        None => CtlStep::Fail("daemon closed the connection".to_owned()),
        Some(m) => match m {
            DaemonMessage::Status { hermes, daemon, .. } => CtlStep::Finish(
                "daemon: ".to_owned().concat(daemon.as_str()).concat("\nhermes: ").concat(
                    hermes.as_str(),
                ).concat("\n"),
            ),
            DaemonMessage::Error { message, .. } => CtlStep::Fail(message),
            _ => CtlStep::Ignore,
        },
    }
}

/// What a one-shot chat prints while the daemon sends `msgs`; nothing follows
/// once the chat has finished or failed.
pub open spec fn printed(watch: ChatWatchView, msgs: Seq<DaemonMessageView>) -> Seq<char>
    decreases msgs.len(),
{
    if msgs.len() == 0 {
        Seq::empty()
    } else {
        match watch.step(Some(msgs[0])) {
            CtlStepView::Ignore => printed(watch.after(Some(msgs[0])), msgs.drop_first()),
            CtlStepView::Print(t) => t + printed(watch.after(Some(msgs[0])), msgs.drop_first()),
            CtlStepView::Finish(t) => t,
            CtlStepView::Fail(_) => Seq::empty(),
        }
    }
}

/// The deltas of the request `id` among `msgs`, put together.
pub open spec fn streamed_text(id: Seq<char>, msgs: Seq<DaemonMessageView>) -> Seq<char>
    decreases msgs.len(),
{
    if msgs.len() == 0 {
        Seq::empty()
    } else {
        let rest = streamed_text(id, msgs.drop_first());
        match msgs[0] {
            DaemonMessageView::Delta { request_id, content } => if request_id == id {
                content + rest
            } else {
                rest
            },
            _ => rest,
        }
    }
}

/// The message is about the request `id` and no end of it, or about another.
pub open spec fn goes_on(id: Seq<char>, m: DaemonMessageView) -> bool {
    let step = (ChatWatchView { request_id: id, streamed: false }).step(Some(m));
    step is Ignore || step is Print
}

/// The message is a delta for the request `id` with some text in it.
pub open spec fn is_delta(id: Seq<char>, m: DaemonMessageView) -> bool {
    m matches DaemonMessageView::Delta { request_id, content } && request_id == id && content.len()
        > 0
}

/// A chat that completes has printed its reply once, with a newline at the end:
/// the deltas where it was streamed, else the final content. What else the
/// daemon sends meanwhile does not show.
pub proof fn reply_is_printed_once(
    id: Seq<char>,
    streamed: bool,
    before: Seq<DaemonMessageView>,
    content: Seq<char>,
    usage: Option<Seq<char>>,
    after: Seq<DaemonMessageView>,
)
    requires
        forall|i: int| 0 <= i < before.len() ==> goes_on(id, #[trigger] before[i]),
    ensures
        ({
            let end = DaemonMessageView::ChatComplete { request_id: id, content, usage };
            let watch = ChatWatchView { request_id: id, streamed };
            let any = streamed || exists|i: int|
                0 <= i < before.len() && is_delta(id, #[trigger] before[i]);
            printed(watch, before.push(end) + after) == if any {
                streamed_text(id, before).push('\n')
            } else {
                content.push('\n')
            }
        }),
    decreases before.len(),
{
    let end = DaemonMessageView::ChatComplete { request_id: id, content, usage };
    let watch = ChatWatchView { request_id: id, streamed };
    let all = before.push(end) + after;
    if before.len() == 0 {
        assert(all[0] == end);
        assert(streamed_text(id, before).push('\n') =~= seq!['\n']);
    } else {
        let rest = before.drop_first();
        assert(all[0] == before[0]);
        assert(goes_on(id, before[0]));
        assert(all.drop_first() =~= rest.push(end) + after);
        let next = watch.after(Some(before[0]));
        reply_is_printed_once(id, next.streamed, rest, content, usage, after);
        assert(next == (ChatWatchView { request_id: id, streamed: next.streamed }));
        if exists|i: int| 0 <= i < before.len() && is_delta(id, #[trigger] before[i]) {
            let i = choose|i: int| 0 <= i < before.len() && is_delta(id, #[trigger] before[i]);
            if i > 0 {
                assert(is_delta(id, rest[i - 1]));
            }
        }
        if exists|i: int| 0 <= i < rest.len() && is_delta(id, #[trigger] rest[i]) {
            let i = choose|i: int| 0 <= i < rest.len() && is_delta(id, #[trigger] rest[i]);
            assert(is_delta(id, before[i + 1]));
        }
        if before[0] is Delta && before[0]->Delta_request_id == id {
            let c = before[0]->Delta_content;
            assert(streamed_text(id, before) == c + streamed_text(id, rest));
            assert((c + streamed_text(id, rest)).push('\n') =~= c + streamed_text(id, rest).push(
                '\n',
            ));
        }
    }
}

/// The message about a failed step names the step and ends in the whole reason.
pub proof fn failure_names_the_step(reason: Seq<char>)
    ensures
        failure_text(Stage::Connect, reason) == "connecting to daemon socket: "@ + reason,
        failure_text(Stage::SendChat, reason) == "sending chat: "@ + reason,
        failure_text(Stage::Subscribe, reason) == "subscribing: "@ + reason,
        failure_text(Stage::RequestStatus, reason) == "requesting status: "@ + reason,
{
}

/// What a status query prints for a state of the daemon and a state of Hermes.
pub open spec fn status_text(
    daemon: Seq<char>,
    hermes: Seq<char>,
    request_id: Option<Seq<char>>,
) -> Seq<char> {
    status_step(Some(DaemonMessageView::Status { hermes, daemon, request_id }))->Finish_0
}

/// A status is printed in two lines, and ends the query: the first line tells
/// the state of the daemon, whole, after `daemon: `, and the second the state of
/// Hermes, whole, after `hermes: `.
pub proof fn status_tells_both_states(
    d: Seq<char>,
    h: Seq<char>,
    request_id: Option<Seq<char>>,
)
    ensures
        status_step(
            Some(DaemonMessageView::Status { hermes: h, daemon: d, request_id }),
        ) is Finish,
        ({
            let t = status_text(d, h, request_id);
            let n = d.len() as int;
            &&& t.len() == n + h.len() + 18
            &&& t.take(8) == seq!['d', 'a', 'e', 'm', 'o', 'n', ':', ' ']
            &&& t.subrange(8, 8 + n) == d
            &&& t[8 + n] == '\n'
            &&& t.subrange(9 + n, 17 + n) == seq!['h', 'e', 'r', 'm', 'e', 's', ':', ' ']
            &&& t.subrange(17 + n, t.len() - 1) == h
            &&& t.last() == '\n'
        }),
{
    reveal_strlit("daemon: ");
    reveal_strlit("\nhermes: ");
    reveal_strlit("\n");
    let t = status_text(d, h, request_id);
    let n = d.len() as int;
    assert(t.take(8) =~= seq!['d', 'a', 'e', 'm', 'o', 'n', ':', ' ']);
    assert(t.subrange(8, 8 + n) =~= d);
    assert(t.subrange(9 + n, 17 + n) =~= seq!['h', 'e', 'r', 'm', 'e', 's', ':', ' ']);
    assert(t.subrange(17 + n, t.len() - 1) =~= h);
}

/// Two statuses that differ in the state of Hermes print different texts, where
/// the state of the daemon is the same, or where neither state of Hermes has a
/// line break in it; so do two that differ in the state of the daemon and in
/// nothing else.
pub proof fn statuses_are_told_apart(
    d1: Seq<char>,
    h1: Seq<char>,
    r1: Option<Seq<char>>,
    d2: Seq<char>,
    h2: Seq<char>,
    r2: Option<Seq<char>>,
)
    ensures
        d1 == d2 && h1 != h2 ==> status_text(d1, h1, r1) != status_text(d2, h2, r2),
        d1 != d2 && h1 == h2 ==> status_text(d1, h1, r1) != status_text(d2, h2, r2),
        !h1.contains('\n') && !h2.contains('\n') && h1 != h2 ==> status_text(d1, h1, r1)
            != status_text(d2, h2, r2),
{
    if status_text(d1, h1, r1) == status_text(d2, h2, r2) {
        lemma_lengths_match(d1, h1, r1, d2, h2, r2);
        if d1.len() == d2.len() {
            lemma_same_text(d1, h1, r1, d2, h2, r2);
        } else if h1.len() < h2.len() {
            lemma_line_break_at(d1, h1, r1);
            lemma_line_break_shows(d2, h2, r2, d1.len() - d2.len());
        } else {
            lemma_line_break_at(d2, h2, r2);
            lemma_line_break_shows(d1, h1, r1, d2.len() - d1.len());
        }
    }
}

proof fn lemma_lengths_match(
    d1: Seq<char>,
    h1: Seq<char>,
    r1: Option<Seq<char>>,
    d2: Seq<char>,
    h2: Seq<char>,
    r2: Option<Seq<char>>,
)
    requires
        status_text(d1, h1, r1) == status_text(d2, h2, r2),
    ensures
        d1.len() + h1.len() == d2.len() + h2.len(),
{
    status_tells_both_states(d1, h1, r1);
    status_tells_both_states(d2, h2, r2);
}

proof fn lemma_same_text(
    d1: Seq<char>,
    h1: Seq<char>,
    r1: Option<Seq<char>>,
    d2: Seq<char>,
    h2: Seq<char>,
    r2: Option<Seq<char>>,
)
    requires
        status_text(d1, h1, r1) == status_text(d2, h2, r2),
        d1.len() == d2.len(),
    ensures
        d1 == d2,
        h1 == h2,
{
    status_tells_both_states(d1, h1, r1);
    status_tells_both_states(d2, h2, r2);
}

proof fn lemma_line_break_at(d: Seq<char>, h: Seq<char>, request_id: Option<Seq<char>>)
    ensures
        status_text(d, h, request_id)[d.len() + 8int] == '\n',
{
    status_tells_both_states(d, h, request_id);
}

proof fn lemma_line_break_shows(
    d: Seq<char>,
    h: Seq<char>,
    request_id: Option<Seq<char>>,
    off: int,
)
    requires
        0 < off <= h.len(),
        status_text(d, h, request_id)[8 + d.len() + off] == '\n',
    ensures
        h.contains('\n'),
{
    status_tells_both_states(d, h, request_id);
    let t = status_text(d, h, request_id);
    let n = d.len() as int;
    if off <= 8 {
        assert(t[8 + n + off] == t.subrange(9 + n, 17 + n)[off - 1]);
        assert(false);
    } else {
        assert(t[8 + n + off] == t.subrange(17 + n, t.len() - 1)[off - 9]);
        assert(h[off - 9] == '\n');
    }
}

/// A status query fails on any error, in the words of the error, and on the end
/// of the connection; every other message but a status is passed over.
pub proof fn status_query_waits_for_a_status(m: DaemonMessageView)
    ensures
        m matches DaemonMessageView::Error { message, .. } ==> status_step(Some(m))
            == CtlStepView::Fail(message),
        !(m is Status) && !(m is Error) ==> status_step(Some(m)) is Ignore,
        status_step(None) == CtlStepView::Fail("daemon closed the connection"@),
{
}

/// A one-shot chat prints its deltas whole and ends on its completion, with a
/// newline after the final content, or after nothing where text was streamed. It
/// fails in the words of an error of its own or of no request, and on the end of
/// the connection. Everything else is passed over.
pub proof fn chat_goes_by_its_own_messages(
    id: Seq<char>,
    streamed: bool,
    m: DaemonMessageView,
    text: Seq<char>,
    usage: Option<Seq<char>>,
)
    ensures
        ({
            let w = ChatWatchView { request_id: id, streamed };
            let end = DaemonMessageView::ChatComplete { request_id: id, content: text, usage };
            let own = DaemonMessageView::Error { request_id: Some(id), message: text };
            let broadcast = DaemonMessageView::Error { request_id: None, message: text };
            &&& w.step(Some(DaemonMessageView::Delta { request_id: id, content: text }))
                == CtlStepView::Print(text)
            &&& w.step(Some(end)) matches CtlStepView::Finish(t) && t.len() == 1 + (if streamed {
                0
            } else {
                text.len()
            }) && t.last() == '\n' && (!streamed ==> t.drop_last() == text)
            &&& w.step(Some(own)) == CtlStepView::Fail(text)
            &&& w.step(Some(broadcast)) == CtlStepView::Fail(text)
            &&& !(m is Delta) && !(m is ChatComplete) && !(m is Error) ==> w.step(Some(m)) is Ignore
            &&& m.addressee() is Some && m.addressee() != Some(id) ==> w.step(Some(m)) is Ignore
            &&& w.step(None) == CtlStepView::Fail(
                "daemon closed the connection before completing"@,
            )
        }),
{
    assert(text.push('\n').drop_last() =~= text);
}

/// A one-shot chat keeps to its request, and text counts as streamed from the
/// first delta of its own on that has any.
pub proof fn chat_notes_what_was_streamed(
    id: Seq<char>,
    streamed: bool,
    m: Option<DaemonMessageView>,
)
    ensures
        ({
            let after = (ChatWatchView { request_id: id, streamed }).after(m);
            &&& after.request_id == id
            &&& after.streamed <==> streamed || (m matches Some(DaemonMessageView::Delta {
                request_id,
                content,
            }) && request_id == id && content.len() > 0)
        }),
{
}

/// A message that comes is gone by as it was sent, and none is made up where
/// none comes.
pub proof fn messages_come_as_they_were_sent(m: DaemonMessage)
    ensures
        incoming(Some(m)) == Some(m@),
        incoming(None) is None,
{
}

} // verus!
