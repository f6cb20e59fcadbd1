//! What a local client makes of the lines that the daemon sends.

use vstd::prelude::*;
use vstd::string::*;
use vstd::utf8::*;

use super::lines::{complete_lines, holds_message, lines_read_back, one_line, wire};
use super::protocol::{ClientMessage, DaemonMessage, DaemonMessageView};
use crate::text::{blank, is_white_space};

verus! {

/// What a client does next.
#[derive(Debug, Clone, PartialEq, Eq)]
pub enum Received {
    /// Read on: the line is blank.
    Skip,
    /// Go by this message.
    Message(DaemonMessage),
    /// Fail: the line is no message, for this reason.
    Malformed(String),
    /// The daemon hung up.
    End,
}

/// What a [`Received`] says.
#[verifier::ext_equal]
pub enum ReceivedView {
    Skip,
    Message(DaemonMessageView),
    Malformed(Seq<char>),
    End,
}

impl View for Received {
    type V = ReceivedView;

    open spec fn view(&self) -> ReceivedView {
        match self {
            Received::Skip => ReceivedView::Skip,
            Received::Message(m) => ReceivedView::Message(m@),
            Received::Malformed(e) => ReceivedView::Malformed(e@),
            Received::End => ReceivedView::End,
        }
    }
}

/// What reading a line as a message gave.
pub type Parsed = Result<DaemonMessageView, Seq<char>>;

/// What a client does about the next line; `None` at the end of the stream.
pub open spec fn receive_step(line: Option<Seq<char>>, parsed: Parsed) -> ReceivedView {
    match line {
        None => ReceivedView::End,
        Some(l) => if blank(l) {
            ReceivedView::Skip
        } else {
            match parsed {
                Ok(m) => ReceivedView::Message(m),
                Err(e) => ReceivedView::Malformed(e),
            }
        },
    }
}

/// Goes by the next line from the daemon; `None` at the end of the stream.
/// `parsed` is what reading the line as a message gave.
pub fn next_message(line: Option<&str>, parsed: Result<DaemonMessage, String>) -> (r: Received)
    ensures
        r@ == receive_step(
            line.deep_view(),
            (match parsed {
                Ok(m) => Ok(m@),
                Err(e) => Err(e@),
            }),
        ),
{
    match line {
        None => Received::End,
        Some(l) => {
            if !holds_message(l) {
                return Received::Skip;
            }
            match parsed {
                Ok(m) => Received::Message(m),
                Err(e) => Received::Malformed(e),
            }
        },
    }
}

/// What a client that reads on over blank lines gets from a stream of lines,
/// and the lines that it leaves unread. `parse` reads one line as a message.
pub open spec fn read_next(
    lines: Seq<Seq<char>>,
    parse: spec_fn(Seq<char>) -> Parsed,
) -> (ReceivedView, Seq<Seq<char>>)
    decreases lines.len(),
{
    if lines.len() == 0 {
        (ReceivedView::End, lines)
    } else {
        match receive_step(Some(lines[0]), parse(lines[0])) {
            ReceivedView::Skip => read_next(lines.drop_first(), parse),
            got => (got, lines.drop_first()),
        }
    }
}

/// The texts of some lines.
pub open spec fn texts(lines: Seq<Seq<u8>>) -> Seq<Seq<char>> {
    lines.map_values(|l: Seq<u8>| decode_utf8(l))
}

proof fn lemma_read_over_blanks(
    blanks: Seq<Seq<char>>,
    rest: Seq<Seq<char>>,
    parse: spec_fn(Seq<char>) -> Parsed,
)
    requires
        forall|i: int| 0 <= i < blanks.len() ==> blank(#[trigger] blanks[i]),
    ensures
        read_next(blanks + rest, parse) == read_next(rest, parse),
    decreases blanks.len(),
{
    if blanks.len() > 0 {
        assert(blank(blanks[0]));
        assert((blanks + rest).drop_first() =~= blanks.drop_first() + rest);
        lemma_read_over_blanks(blanks.drop_first(), rest, parse);
    } else {
        assert(blanks + rest =~= rest);
    }
}

/// A message that was framed and written is read back, over any blank lines
/// before it, and exactly what follows it is left unread; a line that is neither
/// blank nor a message is an error; and blank lines alone are the end of the
/// stream. This holds for every way of writing a message on one line, `payload`,
/// that `parse` undoes.
pub proof fn written_message_is_read_back(
    blanks: Seq<Seq<u8>>,
    payload: Seq<u8>,
    after: Seq<Seq<u8>>,
    parse: spec_fn(Seq<char>) -> Parsed,
)
    requires
        forall|i: int|
            0 <= i < blanks.len() ==> one_line(#[trigger] blanks[i]) && blank(
                decode_utf8(blanks[i]),
            ),
        one_line(payload),
        !blank(decode_utf8(payload)),
        forall|i: int| 0 <= i < after.len() ==> one_line(#[trigger] after[i]),
    ensures
        read_next(texts(complete_lines(wire(blanks + seq![payload] + after))), parse) == (
            match parse(decode_utf8(payload)) {
                Ok(m) => ReceivedView::Message(m),
                Err(e) => ReceivedView::Malformed(e),
            },
            texts(after),
        ),
        read_next(texts(complete_lines(wire(blanks))), parse).0 is End,
{
    let all = blanks + seq![payload] + after;
    lines_read_back(all);
    lines_read_back(blanks);
    let head = texts(blanks);
    let rest = seq![decode_utf8(payload)] + texts(after);
    assert(texts(all) =~= head + rest);
    assert forall|i: int| 0 <= i < head.len() implies blank(#[trigger] head[i]) by {
        assert(one_line(blanks[i]));
    }
    lemma_read_over_blanks(head, rest, parse);
    assert(rest.drop_first() =~= texts(after));
    lemma_read_over_blanks(head, Seq::empty(), parse);
    assert(head + Seq::empty() =~= head);
}

/// What a relay does with a line of its standard input.
#[derive(Debug, Clone, PartialEq, Eq)]
pub enum RelayStep {
    /// Read on: the line is blank.
    Skip,
    /// Send this message to the daemon.
    Send(ClientMessage),
    /// Report that the line is passed over, for this reason, and read on.
    Ignore(String),
}

/// What a [`RelayStep`] says.
pub enum RelayStepView {
    Skip,
    Send(ClientMessage),
    Ignore(Seq<char>),
}

impl RelayStep {
    /// What the step says.
    pub open spec fn says(self) -> RelayStepView {
        match self {
            RelayStep::Skip => RelayStepView::Skip,
            RelayStep::Send(m) => RelayStepView::Send(m),
            RelayStep::Ignore(t) => RelayStepView::Ignore(t@),
        }
    }
}

/// What a relay does with a line, where reading it as a message gave `parsed`.
pub open spec fn relayed(line: Seq<char>, parsed: Result<ClientMessage, String>) -> RelayStepView {
    if blank(line) {
        RelayStepView::Skip
    } else {
        match parsed {
            Ok(m) => RelayStepView::Send(m),
            Err(e) => RelayStepView::Ignore("ignoring malformed stdin line: "@ + e@),
        }
    }
}

/// Goes by a line of a relay's standard input, where reading it as a message
/// gave `parsed`. A malformed line never reaches the daemon and never ends the
/// relay.
pub fn relay_line(line: &str, parsed: Result<ClientMessage, String>) -> (r: RelayStep)
    ensures
        r.says() == relayed(line@, parsed),
{
    if !holds_message(line) {
        return RelayStep::Skip;
    }
    match parsed {
        Ok(m) => RelayStep::Send(m),
        Err(e) => RelayStep::Ignore(
            "ignoring malformed stdin line: ".to_owned().concat(e.as_str()),
        ),
    }
}

/// The line has a character that is no white space.
pub open spec fn has_text(line: Seq<char>) -> bool {
    exists|i: int| 0 <= i < line.len() && !is_white_space(#[trigger] line[i])
}

/// A line with text in it is sent on exactly when it is a message, as that
/// message; else it is passed over, with the whole reason. A line without text
/// is passed over in silence.
pub proof fn relay_sends_messages_only(line: Seq<char>, m: ClientMessage, reason: String)
    ensures
        has_text(line) ==> relayed(line, Ok(m)) == RelayStepView::Send(m),
        has_text(line) ==> relayed(line, Err(reason)) == RelayStepView::Ignore(
            "ignoring malformed stdin line: "@ + reason@,
        ),
        !has_text(line) ==> relayed(line, Ok(m)) is Skip && relayed(line, Err(reason)) is Skip,
{
}

/// A client gets the message of a line with text in it, or the reason why there
/// is none, reads on over a line without text, and learns the end of the stream.
pub proof fn client_gets_what_the_line_says(
    line: Seq<char>,
    m: DaemonMessageView,
    reason: Seq<char>,
    parsed: Parsed,
)
    ensures
        has_text(line) ==> receive_step(Some(line), Ok(m)) == ReceivedView::Message(m),
        has_text(line) ==> receive_step(Some(line), Err(reason)) == ReceivedView::Malformed(reason),
        !has_text(line) ==> receive_step(Some(line), parsed) is Skip,
        receive_step(None, parsed) is End,
{
}

} // verus!
