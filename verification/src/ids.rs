//! Fresh random identifiers.

use vstd::prelude::*;

use crate::text::{hex_byte, hex_byte_is_injective, hex_byte_reads_back, hex_value};

verus! {

/// `uuid::Uuid::new_v4`, taken apart by `Uuid::into_bytes`: sixteen random
/// bytes. Of every outcome it is claimed that the bytes carry the marks of a
/// version 4 UUID, that is the version number in the high half of byte 6 and
/// the variant in the two high bits of byte 8. Nothing is claimed of the
/// random bits. The outside function panics where the system hands out no
/// random numbers.
#[verifier::external_body]
pub(crate) fn random_uuid_bytes() -> (r: [u8; 16])
    ensures
        r@[6] / 16 == 4,
        r@[8] / 64 == 2,
{
    uuid::Uuid::new_v4().into_bytes()
}

/// The hexadecimal form of `b`, two digits for each byte.
pub open spec fn hex_bytes(b: Seq<u8>) -> Seq<char>
    decreases b.len(),
{
    if b.len() == 0 {
        Seq::empty()
    } else {
        hex_bytes(b.drop_last()) + hex_byte(b.last())
    }
}

/// A UUID in its usual notation: hexadecimal digits in groups of 8, 4, 4, 4
/// and 12 with hyphens between them.
pub open spec fn hyphenated(b: Seq<u8>) -> Seq<char> {
    hex_bytes(b.subrange(0, 4)) + seq!['-'] + hex_bytes(b.subrange(4, 6)) + seq!['-'] + hex_bytes(
        b.subrange(6, 8),
    ) + seq!['-'] + hex_bytes(b.subrange(8, 10)) + seq!['-'] + hex_bytes(b.subrange(10, 16))
}

/// `uuid::Uuid`'s `to_string`: the UUID with the given bytes in lower-case
/// hyphenated notation.
#[verifier::external_body]
pub(crate) fn uuid_text(bytes: [u8; 16]) -> (r: String)
    ensures
        r@ == hyphenated(bytes@),
{
    uuid::Uuid::from_bytes(bytes).to_string()
}

/// Some bytes whose hyphenated notation is `s`.
pub open spec fn is_uuid_text(s: Seq<char>) -> bool {
    exists|b: [u8; 16]|
        s == hyphenated(#[trigger] b@) && b@[6] / 16 == 4 && b@[8] / 64 == 2
}

/// A fresh random UUID in hyphenated notation.
pub fn random_uuid_text() -> (r: String)
    ensures
        is_uuid_text(r@),
{
    let bytes = random_uuid_bytes();
    let s = uuid_text(bytes);
    assert(s@ == hyphenated(bytes@));
    s
}

proof fn lemma_hex_bytes_len(b: Seq<u8>)
    ensures
        hex_bytes(b).len() == 2 * b.len(),
    decreases b.len(),
{
    if b.len() > 0 {
        lemma_hex_bytes_len(b.drop_last());
    }
}

proof fn lemma_hex_bytes_injective(a: Seq<u8>, b: Seq<u8>)
    requires
        hex_bytes(a) == hex_bytes(b),
        a.len() == b.len(),
    ensures
        a == b,
    decreases a.len(),
{
    if a.len() > 0 {
        let n = hex_bytes(a).len() - 2;
        lemma_hex_bytes_len(a.drop_last());
        lemma_hex_bytes_len(b.drop_last());
        assert(hex_bytes(a.drop_last()) =~= hex_bytes(a).take(n));
        assert(hex_bytes(b.drop_last()) =~= hex_bytes(b).take(n));
        assert(hex_byte(a.last()) =~= hex_bytes(a).skip(n));
        assert(hex_byte(b.last()) =~= hex_bytes(b).skip(n));
        lemma_hex_bytes_injective(a.drop_last(), b.drop_last());
        hex_byte_is_injective(a.last(), b.last());
        assert(a =~= a.drop_last().push(a.last()));
        assert(b =~= b.drop_last().push(b.last()));
    } else {
        assert(a =~= b);
    }
}

/// The hyphenated notation is 36 characters long, and UUIDs with the same
/// notation are the same UUID.
pub proof fn hyphenated_is_injective(a: Seq<u8>, b: Seq<u8>)
    requires
        a.len() == 16,
        b.len() == 16,
        hyphenated(a) == hyphenated(b),
    ensures
        hyphenated(a).len() == 36,
        a == b,
{
    lemma_groups(a);
    lemma_groups(b);
    lemma_hex_bytes_injective(a.subrange(0, 4), b.subrange(0, 4));
    lemma_hex_bytes_injective(a.subrange(4, 6), b.subrange(4, 6));
    lemma_hex_bytes_injective(a.subrange(6, 8), b.subrange(6, 8));
    lemma_hex_bytes_injective(a.subrange(8, 10), b.subrange(8, 10));
    lemma_hex_bytes_injective(a.subrange(10, 16), b.subrange(10, 16));
    assert(a =~= a.subrange(0, 4) + a.subrange(4, 6) + a.subrange(6, 8) + a.subrange(8, 10)
        + a.subrange(10, 16));
    assert(b =~= b.subrange(0, 4) + b.subrange(4, 6) + b.subrange(6, 8) + b.subrange(8, 10)
        + b.subrange(10, 16));
}

proof fn lemma_groups(b: Seq<u8>)
    requires
        b.len() == 16,
    ensures
        ({
            let s = hyphenated(b);
            &&& s.len() == 36
            &&& hex_bytes(b.subrange(0, 4)) == s.subrange(0, 8)
            &&& hex_bytes(b.subrange(4, 6)) == s.subrange(9, 13)
            &&& hex_bytes(b.subrange(6, 8)) == s.subrange(14, 18)
            &&& hex_bytes(b.subrange(8, 10)) == s.subrange(19, 23)
            &&& hex_bytes(b.subrange(10, 16)) == s.subrange(24, 36)
        }),
{
    lemma_hex_bytes_len(b.subrange(0, 4));
    lemma_hex_bytes_len(b.subrange(4, 6));
    lemma_hex_bytes_len(b.subrange(6, 8));
    lemma_hex_bytes_len(b.subrange(8, 10));
    lemma_hex_bytes_len(b.subrange(10, 16));
    let s = hyphenated(b);
    assert(hex_bytes(b.subrange(0, 4)) =~= s.subrange(0, 8));
    assert(hex_bytes(b.subrange(4, 6)) =~= s.subrange(9, 13));
    assert(hex_bytes(b.subrange(6, 8)) =~= s.subrange(14, 18));
    assert(hex_bytes(b.subrange(8, 10)) =~= s.subrange(19, 23));
    assert(hex_bytes(b.subrange(10, 16)) =~= s.subrange(24, 36));
}

proof fn lemma_hex_pair(b: Seq<u8>, k: int)
    requires
        0 <= k < b.len(),
    ensures
        hex_bytes(b).len() == 2 * b.len(),
        hex_bytes(b)[2 * k] == hex_byte(b[k])[0],
        hex_bytes(b)[2 * k + 1] == hex_byte(b[k])[1],
    decreases b.len(),
{
    lemma_hex_bytes_len(b);
    lemma_hex_bytes_len(b.drop_last());
    if k < b.len() - 1 {
        lemma_hex_pair(b.drop_last(), k);
    }
}

/// A fresh id is 36 characters long, with hyphens after 8, 12, 16 and 20 of its
/// digits, and carries the marks of a random UUID: the version 4, and 2 for the
/// two high bits of its variant.
pub proof fn uuid_text_has_its_shape(s: Seq<char>)
    requires
        is_uuid_text(s),
    ensures
        s.len() == 36,
        s[8] == '-' && s[13] == '-' && s[18] == '-' && s[23] == '-',
        hex_value(s[14]) == 4,
        8 <= hex_value(s[19]) < 12,
{
    let b = choose|b: [u8; 16]|
        s == hyphenated(#[trigger] b@) && b@[6] / 16 == 4 && b@[8] / 64 == 2;
    let bytes = b@;
    lemma_groups(bytes);
    lemma_hex_bytes_len(bytes.subrange(0, 4));
    lemma_hex_bytes_len(bytes.subrange(4, 6));
    lemma_hex_bytes_len(bytes.subrange(6, 8));
    lemma_hex_bytes_len(bytes.subrange(8, 10));
    lemma_hex_pair(bytes.subrange(6, 8), 0);
    lemma_hex_pair(bytes.subrange(8, 10), 0);
    hex_byte_reads_back(bytes[6]);
    hex_byte_reads_back(bytes[8]);
    assert(s.subrange(14, 18)[0] == s[14]);
    assert(s.subrange(19, 23)[0] == s[19]);
}

} // verus!
