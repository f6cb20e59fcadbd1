//! Who may talk to the HTTP server: the hosts that it answers to, and the
//! Bearer token that guards `/mcp` and `/gateway`.

use vstd::prelude::*;
use vstd::string::*;

use crate::config::{ListenAddr, ListenAddrView};
use crate::paths::push_bytes;

verus! {

/// How many seconds may pass before an idle event stream is kept alive.
pub const SSE_KEEP_ALIVE_SECS: u64 = 30;

/// The path of the MCP endpoint.
pub const MCP_PATH: &'static str = "/mcp";

/// The path of the desktop-platform bridge.
pub const GATEWAY_PATH: &'static str = "/gateway";

/// The status that answers a request which may not pass.
pub const UNAUTHORIZED_STATUS: u16 = 401;

/// The body that answers a request which may not pass.
pub const UNAUTHORIZED_BODY: &'static str = "unauthorized";

/// The scheme that an authorization begins with.
pub const BEARER_PREFIX: &'static str = "Bearer ";

/// The `Host` values for the address that the server is bound to.
pub open spec fn hosts_of(addr: ListenAddrView) -> Seq<Seq<char>> {
    seq![addr.addr, addr.ip]
}

/// The `Host` values that the server answers to: the address that it is bound
/// to, with and without the port, and no other.
pub fn allowed_hosts(addr: &ListenAddr) -> (r: Vec<String>)
    ensures
        r.deep_view() == hosts_of(addr.deep_view()),
{
    let v = vec![addr.addr.clone(), addr.ip.clone()];
    assert(v.deep_view() =~= seq![addr.addr@, addr.ip@]);
    v
}

/// A byte that a header value may have in it to count as text: a visible ASCII
/// character, a space or a tab.
pub open spec fn is_header_text_byte(b: u8) -> bool {
    (32 <= b && b < 127) || b == 9
}

/// Every byte of a header value counts as text.
pub open spec fn is_header_text(value: Seq<u8>) -> bool {
    forall|i: int| 0 <= i < value.len() ==> is_header_text_byte(#[trigger] value[i])
}

/// The authorization that presents `token`.
pub open spec fn bearer(token: Seq<u8>) -> Seq<u8> {
    BEARER_PREFIX.spec_bytes() + token
}

/// The authorization `value` presents `token`, and nothing else.
pub open spec fn presents(value: Option<Seq<u8>>, token: Seq<u8>) -> bool {
    value matches Some(v) && is_header_text(v) && v == bearer(token)
}

fn header_is_text(value: &[u8]) -> (r: bool)
    ensures
        r == is_header_text(value@),
{
    let mut i: usize = 0;
    while i < value.len()
        invariant
            i <= value.len(),
            forall|j: int| 0 <= j < i ==> is_header_text_byte(#[trigger] value@[j]),
        decreases value.len() - i,
    {
        let b: u8 = value[i];
        if !((32 <= b && b < 127) || b == 9) {
            return false;
        }
        i += 1;
    }
    true
}

fn same_bytes(a: &[u8], b: &[u8]) -> (r: bool)
    ensures
        r == (a@ == b@),
{
    if a.len() != b.len() {
        return false;
    }
    let mut i: usize = 0;
    while i < a.len()
        invariant
            i <= a.len(),
            a.len() == b.len(),
            forall|j: int| 0 <= j < i ==> #[trigger] a@[j] == b@[j],
        decreases a.len() - i,
    {
        if a[i] != b[i] {
            assert(a@[i as int] != b@[i as int]);
            return false;
        }
        i += 1;
    }
    assert(a@ =~= b@);
    true
}

/// The view of an `Authorization` header.
pub open spec fn header_view(value: Option<&[u8]>) -> Option<Seq<u8>> {
    match value {
        Some(v) => Some(v@),
        None => None,
    }
}

/// May a request with this `Authorization` header pass? Only when it reads
/// `Bearer <expected>`.
pub fn require_bearer(expected: &str, authorization: Option<&[u8]>) -> (r: bool)
    ensures
        r == presents(header_view(authorization), expected.spec_bytes()),
{
    match authorization {
        Some(value) => {
            let mut want: Vec<u8> = Vec::new();
            push_bytes(&mut want, BEARER_PREFIX.as_bytes());
            push_bytes(&mut want, expected.as_bytes());
            assert(want@ =~= bearer(expected.spec_bytes()));
            header_is_text(value) && same_bytes(value, want.as_slice())
        },
        None => false,
    }
}

/// A request may pass the server whose token is `token`; without a token the
/// server is open.
pub open spec fn admits(token: Option<Seq<u8>>, authorization: Option<Seq<u8>>) -> bool {
    match token {
        Some(t) => presents(authorization, t),
        None => true,
    }
}

/// What becomes of a request.
#[derive(Debug, Clone, PartialEq, Eq)]
pub enum Verdict {
    /// It goes on to the endpoint.
    Pass,
    /// It is answered here, with this status and body.
    Refuse { status: u16, body: String },
}

/// What a [`Verdict`] says.
#[verifier::ext_equal]
pub enum VerdictView {
    Pass,
    Refuse { status: u16, body: Seq<char> },
}

impl View for Verdict {
    type V = VerdictView;

    open spec fn view(&self) -> VerdictView {
        match self {
            Verdict::Pass => VerdictView::Pass,
            Verdict::Refuse { status, body } => VerdictView::Refuse {
                status: *status,
                body: body@,
            },
        }
    }
}

/// What becomes of a request to the server whose token is `token`.
pub open spec fn verdict(token: Option<Seq<u8>>, authorization: Option<Seq<u8>>) -> VerdictView {
    if admits(token, authorization) {
        VerdictView::Pass
    } else {
        VerdictView::Refuse { status: UNAUTHORIZED_STATUS, body: UNAUTHORIZED_BODY@ }
    }
}

/// Guards the server whose token is `token`: what becomes of a request with
/// this `Authorization` header.
pub fn guard(token: Option<&str>, authorization: Option<&[u8]>) -> (r: Verdict)
    ensures
        r@ == verdict(
            (match token {
                Some(t) => Some(t.spec_bytes()),
                None => None,
            }),
            header_view(authorization),
        ),
{
    let passes = match token {
        Some(t) => require_bearer(t, authorization),
        None => true,
    };
    if passes {
        Verdict::Pass
    } else {
        Verdict::Refuse { status: UNAUTHORIZED_STATUS, body: UNAUTHORIZED_BODY.to_owned() }
    }
}

/// A guarded server answers every request that does not present its token, and
/// no other, by 401 and the word `unauthorized`.
pub proof fn wrong_token_is_answered_401(token: Seq<u8>, authorization: Option<Seq<u8>>)
    ensures
        !presents(authorization, token) <==> verdict(Some(token), authorization)
            == (VerdictView::Refuse { status: 401, body: "unauthorized"@ }),
        presents(authorization, token) <==> verdict(Some(token), authorization) is Pass,
{
}

/// An authorization fits one token at most.
pub proof fn authorization_fits_one_token(
    value: Option<Seq<u8>>,
    token: Seq<u8>,
    other: Seq<u8>,
)
    requires
        verdict(Some(token), value) is Pass,
        verdict(Some(other), value) is Pass,
    ensures
        token == other,
{
    let p = BEARER_PREFIX.spec_bytes();
    assert(bearer(token).skip(p.len() as int) =~= token);
    assert(bearer(other).skip(p.len() as int) =~= other);
}

/// A request without an authorization never passes a guarded server, and every
/// request passes an open one.
pub proof fn guard_needs_an_authorization(token: Seq<u8>, value: Option<Seq<u8>>)
    ensures
        verdict(Some(token), None) is Refuse,
        verdict(None, value) is Pass,
{
}

/// Presenting the token passes, as long as the token is made of bytes that a
/// header may carry.
pub proof fn token_opens_its_server(token: Seq<u8>)
    requires
        is_header_text(token),
    ensures
        verdict(Some(token), Some(bearer(token))) is Pass,
{
    reveal_strlit("Bearer ");
    vstd::utf8::is_ascii_chars_encode_utf8(BEARER_PREFIX@);
    let p = BEARER_PREFIX.spec_bytes();
    assert forall|i: int| 0 <= i < bearer(token).len() implies is_header_text_byte(
        #[trigger] bearer(token)[i],
    ) by {
        if i >= p.len() {
            assert(bearer(token)[i] == token[i - p.len()]);
        }
    }
}

/// The server answers to the address that it is bound to, with its port and
/// without, and to no other host.
pub proof fn hosts_are_the_bind_address(addr: ListenAddrView, host: Seq<char>)
    ensures
        hosts_of(addr).contains(host) <==> host == addr.addr || host == addr.ip,
{
    let hosts = hosts_of(addr);
    if host == addr.addr {
        assert(hosts[0] == host);
    }
    if host == addr.ip {
        assert(hosts[1] == host);
    }
}

proof fn lemma_bearer(token: Seq<u8>)
    ensures
        bearer(token) == seq![66u8, 101, 97, 114, 101, 114, 32] + token,
{
    reveal_strlit("Bearer ");
    vstd::utf8::is_ascii_chars_encode_utf8(BEARER_PREFIX@);
    assert(BEARER_PREFIX.spec_bytes() =~= seq![66u8, 101, 97, 114, 101, 114, 32]);
}

/// A request passes a guarded server exactly when its authorization is the seven
/// bytes of `Bearer ` and then the token, byte for byte and to its end, and is
/// made of printable ASCII characters and tabs alone; every other request is
/// refused.
pub proof fn authorization_is_the_scheme_and_the_token(token: Seq<u8>, v: Seq<u8>)
    ensures
        verdict(Some(token), Some(v)) is Pass <==> {
            &&& v.len() == token.len() + 7
            &&& v.take(7) == seq![66u8, 101, 97, 114, 101, 114, 32]
            &&& v.skip(7) == token
            &&& forall|i: int| 0 <= i < v.len() ==> #[trigger] v[i] == 9 || 32 <= v[i] <= 126
        },
        verdict(Some(token), Some(v)) is Pass || verdict(Some(token), Some(v)) == (
        VerdictView::Refuse { status: 401, body: "unauthorized"@ }),
{
    lemma_bearer(token);
    let scheme = seq![66u8, 101, 97, 114, 101, 114, 32];
    if v == bearer(token) {
        assert(v.take(7) =~= scheme);
        assert(v.skip(7) =~= token);
    }
    if v.len() == token.len() + 7 && v.take(7) == scheme && v.skip(7) == token {
        assert(v =~= v.take(7) + v.skip(7));
    }
    if is_header_text(v) {
        assert forall|i: int| 0 <= i < v.len() implies #[trigger] v[i] == 9 || 32 <= v[i]
            <= 126 by {
            assert(is_header_text_byte(v[i]));
        }
    }
}

/// The guard looks at the header as it came, and at none where there is none.
pub proof fn header_is_looked_at_as_it_came(value: &[u8])
    ensures
        header_view(Some(value)) == Some(value@),
        header_view(None) is None,
{
}

} // verus!
