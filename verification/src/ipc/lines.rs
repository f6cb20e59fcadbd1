//! Lines on the wire: every message is one line of JSON that ends in a newline.

use vstd::prelude::*;

use crate::text::{blank, is_blank, is_white_space};

verus! {

/// The byte that ends a line.
pub const NEWLINE: u8 = 10;

/// The line that carries a payload.
pub open spec fn framed(payload: Seq<u8>) -> Seq<u8> {
    payload.push(NEWLINE)
}

/// Makes a line of one serialized message.
pub fn frame(payload: Vec<u8>) -> (r: Vec<u8>)
    ensures
        r@ == framed(payload@),
{
    let mut line = payload;
    line.push(NEWLINE);
    line
}

/// The line holds more than white space.
pub open spec fn counts(line: Seq<char>) -> bool {
    !blank(line)
}

/// Does a line that was read hold a message? Lines of white space do not count.
pub fn holds_message(line: &str) -> (r: bool)
    ensures
        r == counts(line@),
{
    !is_blank(line)
}

/// `payload` fits on one line.
pub open spec fn one_line(payload: Seq<u8>) -> bool {
    !payload.contains(NEWLINE)
}

/// What a connection carries after the given payloads were framed and written.
pub open spec fn wire(payloads: Seq<Seq<u8>>) -> Seq<u8>
    decreases payloads.len(),
{
    if payloads.len() == 0 {
        Seq::empty()
    } else {
        payloads[0].push(NEWLINE) + wire(payloads.drop_first())
    }
}

/// The position of the first newline of `bytes`, or the length where there is
/// none.
pub open spec fn line_end(bytes: Seq<u8>) -> nat
    decreases bytes.len(),
{
    if bytes.len() == 0 || bytes[0] == NEWLINE {
        0
    } else {
        1 + line_end(bytes.drop_first())
    }
}

/// The complete lines of `bytes`, without their newlines.
pub open spec fn complete_lines(bytes: Seq<u8>) -> Seq<Seq<u8>>
    decreases bytes.len(),
{
    let end = line_end(bytes);
    if end < bytes.len() {
        seq![bytes.take(end as int)] + complete_lines(bytes.skip(end as int + 1))
    } else {
        Seq::empty()
    }
}

proof fn lemma_line_end_of_frame(payload: Seq<u8>, rest: Seq<u8>)
    requires
        one_line(payload),
    ensures
        line_end(payload.push(NEWLINE) + rest) == payload.len(),
    decreases payload.len(),
{
    let all = payload.push(NEWLINE) + rest;
    if payload.len() > 0 {
        assert(payload.contains(payload[0]));
        assert(all.drop_first() =~= payload.drop_first().push(NEWLINE) + rest);
        assert forall|x: u8| payload.drop_first().contains(x) implies payload.contains(x) by {
            let i = choose|i: int| 0 <= i < payload.len() - 1 && payload.drop_first()[i] == x;
            assert(payload[i + 1] == x);
        }
        lemma_line_end_of_frame(payload.drop_first(), rest);
    }
}

/// Reading the wire line by line gives back the payloads that were written, in
/// order, as long as each fits on one line.
pub proof fn lines_read_back(payloads: Seq<Seq<u8>>)
    requires
        forall|i: int| 0 <= i < payloads.len() ==> one_line(#[trigger] payloads[i]),
    ensures
        complete_lines(wire(payloads)) == payloads,
    decreases payloads.len(),
{
    if payloads.len() > 0 {
        let rest = payloads.drop_first();
        let bytes = wire(payloads);
        lemma_line_end_of_frame(payloads[0], wire(rest));
        lines_read_back(rest);
        assert(bytes.take(payloads[0].len() as int) =~= payloads[0]);
        assert(bytes.skip(payloads[0].len() as int + 1) =~= wire(rest));
        assert(complete_lines(bytes) =~= payloads);
    } else {
        assert(complete_lines(wire(payloads)) =~= payloads);
    }
}

/// A framed payload is the payload, whole, and one newline after it; so a
/// connection that carries the frames of some payloads one after the other reads
/// back as those payloads, as long as each fits on one line.
pub proof fn frame_adds_one_newline(payload: Seq<u8>, payloads: Seq<Seq<u8>>)
    ensures
        framed(payload).len() == payload.len() + 1,
        framed(payload).take(payload.len() as int) == payload,
        framed(payload)[payload.len() as int] == 10,
        wire(seq![payload] + payloads) == framed(payload) + wire(payloads),
        one_line(payload) <==> forall|i: int|
            0 <= i < payload.len() ==> #[trigger] payload[i] != 10,
        one_line(payload) ==> complete_lines(framed(payload)) == seq![payload],
{
    assert(framed(payload).take(payload.len() as int) =~= payload);
    let all = seq![payload] + payloads;
    assert(all.drop_first() =~= payloads);
    if one_line(payload) {
        let one = seq![payload];
        assert(one.drop_first() =~= Seq::empty());
        reveal_with_fuel(wire, 2);
        assert(wire(one) =~= framed(payload));
        lines_read_back(one);
        assert forall|i: int| 0 <= i < payload.len() implies #[trigger] payload[i] != 10 by {
            assert(payload.contains(payload[i]));
        }
    }
}

/// A line counts as a message as soon as one character of it is no white space.
pub proof fn lines_with_text_count(line: Seq<char>)
    ensures
        counts(line) <==> exists|i: int| 0 <= i < line.len() && !is_white_space(#[trigger] line[i]),
{
}

} // verus!
