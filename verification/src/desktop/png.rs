//! When a PNG file is all there.
//!
//! A PNG file is a signature followed by chunks: four bytes of length, four of
//! type, that many of data and four of checksum. The chunk of type `IEND` comes
//! last.

use vstd::prelude::*;

verus! {

/// The bytes that a PNG file begins with.
pub const PNG_MAGIC: [u8; 8] = [0x89, 0x50, 0x4e, 0x47, 0x0d, 0x0a, 0x1a, 0x0a];

/// `bytes` begin as a PNG file does.
pub open spec fn has_magic(bytes: Seq<u8>) -> bool {
    PNG_MAGIC@.is_prefix_of(bytes)
}

/// The length of the data of the chunk at `pos`.
pub open spec fn data_len(bytes: Seq<u8>, pos: int) -> int {
    ((bytes[pos] * 256 + bytes[pos + 1]) * 256 + bytes[pos + 2]) * 256 + bytes[pos + 3]
}

/// Where the chunk at `pos` ends.
pub open spec fn chunk_end(bytes: Seq<u8>, pos: int) -> int {
    pos + 12 + data_len(bytes, pos)
}

/// The chunk at `pos` has the type `IEND`.
pub open spec fn is_last_chunk(bytes: Seq<u8>, pos: int) -> bool {
    bytes[pos + 4] == 0x49 && bytes[pos + 5] == 0x45 && bytes[pos + 6] == 0x4e && bytes[pos + 7]
        == 0x44
}

/// Where the file ends that has one whole chunk after the other from `pos` on,
/// up to one of type `IEND`; `None` where that chunk is not all there.
pub open spec fn last_chunk_end(bytes: Seq<u8>, pos: int) -> Option<int>
    decreases bytes.len() - pos,
{
    if pos + 12 > bytes.len() || chunk_end(bytes, pos) > bytes.len() {
        None
    } else if is_last_chunk(bytes, pos) {
        Some(chunk_end(bytes, pos))
    } else {
        last_chunk_end(bytes, chunk_end(bytes, pos))
    }
}

/// `bytes` hold a fully-written PNG file: the signature, then whole chunks up to
/// and with the one of type `IEND`, whatever follows.
pub open spec fn is_whole_png(bytes: Seq<u8>) -> bool {
    has_magic(bytes) && last_chunk_end(bytes, 8) is Some
}

/// Where the PNG file in `bytes` ends.
pub open spec fn png_end(bytes: Seq<u8>) -> int
    recommends
        is_whole_png(bytes),
{
    last_chunk_end(bytes, 8)->0
}

fn begins_with_magic(bytes: &[u8]) -> (r: bool)
    ensures
        r == has_magic(bytes@),
{
    if bytes.len() < 8 {
        return false;
    }
    let mut i: usize = 0;
    while i < 8
        invariant
            i <= 8,
            bytes@.len() >= 8,
            forall|j: int| 0 <= j < i ==> #[trigger] bytes@[j] == PNG_MAGIC@[j],
        decreases 8 - i,
    {
        if bytes[i] != PNG_MAGIC[i] {
            assert(bytes@.take(8)[i as int] == bytes@[i as int]);
            return false;
        }
        i += 1;
    }
    assert(PNG_MAGIC@ =~= bytes@.take(8));
    true
}

/// Do `bytes` hold a fully-written PNG file?
pub fn whole_png(bytes: &[u8]) -> (r: bool)
    ensures
        r == is_whole_png(bytes@),
{
    if !begins_with_magic(bytes) {
        return false;
    }
    let mut pos: usize = 8;
    while bytes.len() - pos >= 12
        invariant
            pos <= bytes.len(),
            last_chunk_end(bytes@, 8) == last_chunk_end(bytes@, pos as int),
            has_magic(bytes@),
        decreases bytes.len() - pos,
    {
        let len: u64 = ((bytes[pos] as u64 * 256 + bytes[pos + 1] as u64) * 256 + bytes[pos
            + 2] as u64) * 256 + bytes[pos + 3] as u64;
        assert(len == data_len(bytes@, pos as int));
        let room: usize = bytes.len() - pos - 12;
        if len > room as u64 {
            return false;
        }
        let end: usize = pos + 12 + len as usize;
        if bytes[pos + 4] == 0x49 && bytes[pos + 5] == 0x45 && bytes[pos + 6] == 0x4e && bytes[pos
            + 7] == 0x44 {
            return true;
        }
        pos = end;
    }
    false
}

proof fn lemma_cut_chain(bytes: Seq<u8>, n: int, pos: int)
    requires
        0 <= pos,
        0 <= n <= bytes.len(),
        last_chunk_end(bytes, pos) is Some,
    ensures
        pos < last_chunk_end(bytes, pos)->0 <= bytes.len(),
        last_chunk_end(bytes.take(n), pos) == if n < last_chunk_end(bytes, pos)->0 {
            None
        } else {
            last_chunk_end(bytes, pos)
        },
    decreases bytes.len() - pos,
{
    let cut = bytes.take(n);
    if !is_last_chunk(bytes, pos) {
        lemma_cut_chain(bytes, n, chunk_end(bytes, pos));
    }
    if pos + 12 <= n {
        assert(data_len(cut, pos) == data_len(bytes, pos));
        assert(is_last_chunk(cut, pos) == is_last_chunk(bytes, pos));
    }
}

/// No beginning of a PNG file that stops before the file's end is a fully-written
/// one: a file that is still being written never counts. What follows the end
/// makes no difference.
pub proof fn partial_png_is_not_whole(bytes: Seq<u8>, n: int)
    requires
        is_whole_png(bytes),
        0 <= n <= bytes.len(),
    ensures
        8 < png_end(bytes) <= bytes.len(),
        is_whole_png(bytes.take(n)) <==> n >= png_end(bytes),
{
    lemma_cut_chain(bytes, n, 8);
    if n >= png_end(bytes) {
        assert(bytes.take(n).take(8) =~= bytes.take(8));
    }
}

/// The signature alone is no PNG file.
pub proof fn magic_alone_is_not_whole()
    ensures
        !is_whole_png(PNG_MAGIC@),
{
}

/// One chunk of a file: its type, its data and its checksum.
#[verifier::ext_equal]
pub struct Chunk {
    pub kind: Seq<u8>,
    pub data: Seq<u8>,
    pub crc: Seq<u8>,
}

/// A number below 2^32 as four bytes, the most significant first.
pub open spec fn four_bytes(n: int) -> Seq<u8> {
    seq![
        (n / 0x100_0000) as u8,
        ((n / 0x1_0000) % 0x100) as u8,
        ((n / 0x100) % 0x100) as u8,
        (n % 0x100) as u8,
    ]
}

impl Chunk {
    /// The chunk can be written: four bytes of type, four of checksum, and data
    /// whose length four bytes can tell.
    pub open spec fn can_be_written(self) -> bool {
        self.kind.len() == 4 && self.crc.len() == 4 && self.data.len() < 0x1_0000_0000
    }

    /// The chunk as it is written: length, type, data, checksum.
    pub open spec fn written(self) -> Seq<u8> {
        four_bytes(self.data.len() as int) + self.kind + self.data + self.crc
    }

    /// The type is `IEND`.
    pub open spec fn closes_the_file(self) -> bool {
        self.kind == seq![0x49u8, 0x45u8, 0x4eu8, 0x44u8]
    }
}

/// Some chunks, written one after the other.
pub open spec fn written_chunks(chunks: Seq<Chunk>) -> Seq<u8>
    decreases chunks.len(),
{
    if chunks.len() == 0 {
        Seq::empty()
    } else {
        chunks[0].written() + written_chunks(chunks.drop_first())
    }
}

/// The chunks make a file: each can be written, and the last and only the last
/// closes the file.
pub open spec fn make_a_file(chunks: Seq<Chunk>) -> bool {
    &&& chunks.len() > 0
    &&& forall|i: int| 0 <= i < chunks.len() ==> (#[trigger] chunks[i]).can_be_written()
    &&& forall|i: int|
        0 <= i < chunks.len() ==> ((#[trigger] chunks[i]).closes_the_file() <==> i == chunks.len()
            - 1)
}

/// The eight bytes that every PNG file begins with.
pub open spec fn signature() -> Seq<u8> {
    seq![0x89u8, 0x50u8, 0x4eu8, 0x47u8, 0x0du8, 0x0au8, 0x1au8, 0x0au8]
}

proof fn lemma_four_bytes(n: int)
    requires
        0 <= n < 0x1_0000_0000,
    ensures
        ((four_bytes(n)[0] * 256 + four_bytes(n)[1]) * 256 + four_bytes(n)[2]) * 256
            + four_bytes(n)[3] == n,
{
    let (a, b, c, d) = (n / 0x100_0000, (n / 0x1_0000) % 0x100, (n / 0x100) % 0x100, n % 0x100);
    assert(0 <= a < 0x100);
    assert(a == (n / 0x1_0000) / 0x100);
    assert(n / 0x1_0000 == a * 0x100 + b);
    assert(n / 0x1_0000 == (n / 0x100) / 0x100);
    assert(n / 0x100 == (n / 0x1_0000) * 0x100 + c);
}

proof fn lemma_chunks_are_read(front: Seq<u8>, chunks: Seq<Chunk>, after: Seq<u8>)
    requires
        make_a_file(chunks),
    ensures
        last_chunk_end(front + written_chunks(chunks) + after, front.len() as int) == Some(
            (front.len() + written_chunks(chunks).len()) as int,
        ),
    decreases chunks.len(),
{
    let bytes = front + written_chunks(chunks) + after;
    let pos = front.len() as int;
    let first = chunks[0];
    assert(first.can_be_written());
    let w = first.written();
    let rest = chunks.drop_first();
    let n = first.data.len() as int;
    lemma_four_bytes(n);
    assert(w.len() == 12 + n);
    assert forall|k: int| 0 <= k < 4 implies #[trigger] bytes[pos + k] == four_bytes(n)[k] by {
        assert(bytes[pos + k] == w[k]);
    }
    assert forall|k: int| 0 <= k < 4 implies #[trigger] bytes[pos + 4 + k] == first.kind[k] by {
        assert(bytes[pos + 4 + k] == w[4 + k]);
    }
    assert(bytes[pos + 0] == four_bytes(n)[0]);
    assert(bytes[pos + 1] == four_bytes(n)[1]);
    assert(bytes[pos + 2] == four_bytes(n)[2]);
    assert(bytes[pos + 3] == four_bytes(n)[3]);
    assert(data_len(bytes, pos) == n);
    assert(bytes[pos + 4 + 0] == first.kind[0]);
    assert(bytes[pos + 4 + 1] == first.kind[1]);
    assert(bytes[pos + 4 + 2] == first.kind[2]);
    assert(bytes[pos + 4 + 3] == first.kind[3]);
    if first.closes_the_file() {
        assert(chunks.len() == 1);
        assert(written_chunks(rest) =~= Seq::<u8>::empty());
        assert(is_last_chunk(bytes, pos));
    } else {
        if is_last_chunk(bytes, pos) {
            assert(first.kind =~= seq![0x49u8, 0x45u8, 0x4eu8, 0x44u8]);
        }
        assert(chunks.len() > 1);
        assert forall|i: int| 0 <= i < rest.len() implies (#[trigger] rest[i]).can_be_written() by {
            assert(rest[i] == chunks[i + 1]);
        }
        assert forall|i: int| 0 <= i < rest.len() implies ((#[trigger] rest[i]).closes_the_file()
            <==> i == rest.len() - 1) by {
            assert(rest[i] == chunks[i + 1]);
        }
        assert(bytes =~= (front + w) + written_chunks(rest) + after);
        lemma_chunks_are_read(front + w, rest, after);
    }
}

/// A file that is the signature followed by chunks, of any lengths that four
/// bytes can tell, the last and only the last of type `IEND`, is a whole PNG
/// that ends where the last chunk ends, whatever follows.
pub proof fn file_made_of_chunks_is_whole(chunks: Seq<Chunk>, after: Seq<u8>)
    requires
        make_a_file(chunks),
    ensures
        is_whole_png(signature() + written_chunks(chunks) + after),
        png_end(signature() + written_chunks(chunks) + after) == 8 + written_chunks(chunks).len(),
{
    let file = signature() + written_chunks(chunks) + after;
    lemma_chunks_are_read(signature(), chunks, after);
    assert(PNG_MAGIC@ =~= signature());
    assert(file.take(8) =~= signature());
}

proof fn lemma_chunks_are_there(bytes: Seq<u8>, pos: int) -> (chunks: Seq<Chunk>)
    requires
        0 <= pos <= bytes.len(),
        last_chunk_end(bytes, pos) is Some,
    ensures
        make_a_file(chunks),
        pos + written_chunks(chunks).len() == last_chunk_end(bytes, pos)->0,
        bytes.subrange(pos, last_chunk_end(bytes, pos)->0) == written_chunks(chunks),
    decreases bytes.len() - pos,
{
    let end = chunk_end(bytes, pos);
    let n = data_len(bytes, pos);
    let first = Chunk {
        kind: bytes.subrange(pos + 4, pos + 8),
        data: bytes.subrange(pos + 8, pos + 8 + n),
        crc: bytes.subrange(end - 4, end),
    };
    assert(0 <= n < 0x1_0000_0000);
    lemma_four_bytes(n);
    assert(four_bytes(n) =~= bytes.subrange(pos, pos + 4));
    assert(first.written() =~= bytes.subrange(pos, end));
    assert(first.kind[0] == bytes[pos + 4] && first.kind[1] == bytes[pos + 5] && first.kind[2]
        == bytes[pos + 6] && first.kind[3] == bytes[pos + 7]);
    if is_last_chunk(bytes, pos) {
        assert(first.kind =~= seq![0x49u8, 0x45u8, 0x4eu8, 0x44u8]);
        let chunks = seq![first];
        assert(chunks.drop_first() =~= Seq::<Chunk>::empty());
        reveal_with_fuel(written_chunks, 2);
        assert(written_chunks(chunks) =~= first.written());
        chunks
    } else {
        assert(!first.closes_the_file());
        let rest = lemma_chunks_are_there(bytes, end);
        let chunks = seq![first] + rest;
        assert(chunks.drop_first() =~= rest);
        let stop = last_chunk_end(bytes, pos)->0;
        lemma_cut_chain(bytes, 0, end);
        assert(bytes.subrange(pos, stop) =~= bytes.subrange(pos, end) + bytes.subrange(end, stop));
        assert forall|i: int| 0 <= i < chunks.len() implies (
        #[trigger] chunks[i]).can_be_written() by {
            if i > 0 {
                assert(chunks[i] == rest[i - 1]);
            }
        }
        assert forall|i: int| 0 <= i < chunks.len() implies ((
        #[trigger] chunks[i]).closes_the_file() <==> i == chunks.len() - 1) by {
            if i > 0 {
                assert(chunks[i] == rest[i - 1]);
            }
        }
        chunks
    }
}

/// Nothing else counts: a whole PNG is the signature, chunks of which the last
/// and only the last is of type `IEND`, and whatever follows them.
pub proof fn whole_file_is_made_of_chunks(bytes: Seq<u8>) -> (r: (Seq<Chunk>, Seq<u8>))
    requires
        is_whole_png(bytes),
    ensures
        make_a_file(r.0),
        bytes == signature() + written_chunks(r.0) + r.1,
{
    assert(PNG_MAGIC@ =~= signature());
    partial_png_is_not_whole(bytes, 0);
    let chunks = lemma_chunks_are_there(bytes, 8);
    let end = png_end(bytes);
    assert(bytes.take(8) =~= signature());
    assert(bytes =~= bytes.take(8) + bytes.subrange(8, end) + bytes.skip(end));
    (chunks, bytes.skip(end))
}

} // verus!
