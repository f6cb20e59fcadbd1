//! Desktop session identity.
//!
//! New conversations get a fresh client-minted chat id; the gateway owns the
//! session it keys off that id, and the panel uses the id as its conversation
//! handle. Desktop sessions are recognized in the switcher by the gateway's
//! `source == "desktop"` tag, not by the shape of this id.

use std::time::{Duration, SystemTime, SystemTimeError, UNIX_EPOCH};

use vstd::prelude::*;
use vstd::string::*;

use crate::ids::random_uuid_bytes;
use crate::text::{
    decimal, decimal_is_digits, decimal_is_injective, decimal_reads_back, decimal_text, decimal_value,
    hex_byte, hex_byte_is_injective, hex_byte_reads_back, hex_value, is_digit, is_hex_digit, push_hex,
};

verus! {

/// A moment of the system clock.
#[verifier::external_type_specification]
#[verifier::external_body]
pub struct ExSystemTime(SystemTime);

/// What the clock answers where the later moment comes first.
#[verifier::external_type_specification]
#[verifier::external_body]
pub struct ExSystemTimeError(SystemTimeError);

/// `SystemTime::now` reads the system clock; nothing is claimed of it.
pub assume_specification[ SystemTime::now ]() -> SystemTime;

/// `SystemTime::duration_since` with `UNIX_EPOCH`: the time from the start of
/// Unix time to `t`, or an error where `t` comes earlier; nothing more is
/// claimed.
#[verifier::external_body]
fn since_epoch(t: SystemTime) -> Result<Duration, SystemTimeError> {
    t.duration_since(UNIX_EPOCH)
}

/// `Duration::as_secs` gives the whole seconds of a span of time; nothing is
/// claimed of which number that is.
pub assume_specification[ Duration::as_secs ](d: &Duration) -> u64;

/// Id prefix for the chat ids that the daemon mints.
pub const DESKTOP_SESSION_PREFIX: &'static str = "desktop_";

/// The chat id of a conversation begun at second `secs` with the random bytes
/// `rand`: `desktop_{secs}_{8 hex digits}`.
pub open spec fn desktop_session_id(secs: nat, rand: Seq<u8>) -> Seq<char> {
    DESKTOP_SESSION_PREFIX@ + decimal(secs) + seq!['_'] + hex_byte(rand[0]) + hex_byte(rand[1])
        + hex_byte(rand[2]) + hex_byte(rand[3])
}

/// `s` is a chat id that the daemon can mint.
pub open spec fn is_desktop_session_id(s: Seq<char>) -> bool {
    exists|secs: u64, rand: Seq<u8>|
        rand.len() >= 4 && s == #[trigger] desktop_session_id(secs as nat, rand)
}

/// Writes the chat id for second `secs` and the random bytes `rand`.
pub fn format_desktop_session_id(secs: u64, rand: &[u8]) -> (r: String)
    requires
        rand@.len() >= 4,
    ensures
        r@ == desktop_session_id(secs as nat, rand@),
{
    let mut s = DESKTOP_SESSION_PREFIX.to_owned();
    s.append(decimal_text(secs).as_str());
    s.push('_');
    push_hex(&mut s, rand[0]);
    push_hex(&mut s, rand[1]);
    push_hex(&mut s, rand[2]);
    push_hex(&mut s, rand[3]);
    assert(s@ =~= desktop_session_id(secs as nat, rand@));
    s
}

/// The seconds that the clock tells; none before the start of Unix time.
pub open spec fn elapsed_seconds(secs: Option<u64>) -> u64 {
    match secs {
        Some(s) => s,
        None => 0,
    }
}

/// The seconds for a chat id, where the clock says that so many have passed
/// since the start of Unix time; `None` where the clock is earlier than that.
pub fn seconds_or_zero(secs: Option<u64>) -> (r: u64)
    ensures
        r == elapsed_seconds(secs),
{
    match secs {
        Some(s) => s,
        None => 0,
    }
}

/// Generates a fresh desktop chat id: `desktop_{unix_secs}_{8 hex}`.
pub fn new_desktop_session_id() -> (r: String)
    ensures
        is_desktop_session_id(r@),
{
    let elapsed: Option<u64> = match since_epoch(SystemTime::now()) {
        Ok(d) => Some(d.as_secs()),
        Err(_) => None,
    };
    let secs: u64 = seconds_or_zero(elapsed);
    let bytes = random_uuid_bytes();
    let s = format_desktop_session_id(secs, bytes.as_slice());
    assert(s@ == desktop_session_id(secs as nat, bytes@));
    s
}

/// A minted chat id is the prefix, one or more decimal digits, an underscore
/// and eight hexadecimal digits.
pub proof fn session_id_shape(secs: nat, rand: Seq<u8>)
    requires
        rand.len() >= 4,
    ensures
        ({
            let id = desktop_session_id(secs, rand);
            let p = DESKTOP_SESSION_PREFIX@.len() as int;
            let u = id.len() - 9;
            &&& p < u
            &&& id.take(p) == DESKTOP_SESSION_PREFIX@
            &&& forall|i: int| p <= i < u ==> is_digit(#[trigger] id[i])
            &&& id[u] == '_'
            &&& forall|i: int| u < i < id.len() ==> is_hex_digit(#[trigger] id[i])
        }),
{
    decimal_is_digits(secs);
    let id = desktop_session_id(secs, rand);
    let p = DESKTOP_SESSION_PREFIX@.len() as int;
    let u = id.len() - 9;
    assert(u == p + decimal(secs).len());
    assert(id.take(p) =~= DESKTOP_SESSION_PREFIX@);
    assert forall|i: int| p <= i < u implies is_digit(#[trigger] id[i]) by {
        assert(id[i] == decimal(secs)[i - p]);
    }
    assert forall|i: int| u < i < id.len() implies is_hex_digit(#[trigger] id[i]) by {
        let k = (i - u - 1) / 2;
        let b = rand[k];
        assert(id[i] == hex_byte(b)[(i - u - 1) % 2]);
    }
}

/// Conversations begun at different seconds, or with different random bytes,
/// get different chat ids.
pub proof fn session_ids_are_distinct(secs1: nat, rand1: Seq<u8>, secs2: nat, rand2: Seq<u8>)
    requires
        rand1.len() >= 4,
        rand2.len() >= 4,
        desktop_session_id(secs1, rand1) == desktop_session_id(secs2, rand2),
    ensures
        secs1 == secs2,
        rand1.take(4) == rand2.take(4),
{
    let a = desktop_session_id(secs1, rand1);
    let b = desktop_session_id(secs2, rand2);
    let p = DESKTOP_SESSION_PREFIX@.len() as int;
    let u = a.len() - 9;
    assert(decimal(secs1) =~= a.subrange(p, u));
    assert(decimal(secs2) =~= b.subrange(p, u));
    decimal_is_injective(secs1, secs2);
    assert forall|k: int| 0 <= k < 4 implies rand1[k] == rand2[k] by {
        assert(hex_byte(rand1[k]) =~= a.subrange(u + 1 + 2 * k, u + 3 + 2 * k));
        assert(hex_byte(rand2[k]) =~= b.subrange(u + 1 + 2 * k, u + 3 + 2 * k));
        hex_byte_is_injective(rand1[k], rand2[k]);
    }
    assert(rand1.take(4) =~= rand2.take(4));
}

/// A chat id tells what it was made of: after `desktop_`, up to the next
/// underscore, the seconds in decimal; then the first four random bytes, in
/// order, in two hexadecimal digits each, the high one first.
pub proof fn session_id_reads_back(secs: nat, rand: Seq<u8>)
    requires
        rand.len() >= 4,
    ensures
        ({
            let id = desktop_session_id(secs, rand);
            let u = id.len() - 9;
            &&& u > 8
            &&& id.take(8) == seq!['d', 'e', 's', 'k', 't', 'o', 'p', '_']
            &&& decimal_value(id.subrange(8, u)) == secs
            &&& id[u] == '_'
            &&& forall|k: int|
                0 <= k < 4 ==> 16 * hex_value(id[u + 1 + 2 * k]) + hex_value(id[u + 2 + 2 * k])
                    == #[trigger] rand[k]
        }),
{
    reveal_strlit("desktop_");
    decimal_reads_back(secs);
    let id = desktop_session_id(secs, rand);
    let u = id.len() - 9;
    assert(DESKTOP_SESSION_PREFIX@ =~= seq!['d', 'e', 's', 'k', 't', 'o', 'p', '_']);
    assert(id.take(8) =~= DESKTOP_SESSION_PREFIX@);
    assert(id.subrange(8, u) =~= decimal(secs));
    assert forall|k: int| 0 <= k < 4 implies 16 * hex_value(id[u + 1 + 2 * k]) + hex_value(
        id[u + 2 + 2 * k],
    ) == #[trigger] rand[k] by {
        hex_byte_reads_back(rand[k]);
        assert(hex_byte(rand[k]) =~= id.subrange(u + 1 + 2 * k, u + 3 + 2 * k));
        assert(id[u + 1 + 2 * k] == hex_byte(rand[k])[0]);
        assert(id[u + 2 + 2 * k] == hex_byte(rand[k])[1]);
    }
}

/// The seconds are the clock's wherever it tells any, and zero where it does
/// not.
pub proof fn seconds_are_the_clocks(secs: u64)
    ensures
        elapsed_seconds(Some(secs)) == secs,
        elapsed_seconds(None) == 0,
{
}

} // verus!
