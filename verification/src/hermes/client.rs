//! Requests to the Hermes platform API server, and what its replies mean.

use vstd::prelude::*;
use vstd::string::*;

use crate::http::{is_success, success, ApiRequest, ApiRequestView, Method};
use crate::json::{lookup, members, object_json, reads_back, write_object};
use crate::text::{
    decimal, decimal_reads_back, decimal_text, decimal_value, strip_trailing,
    stripping_takes_a_trailing_run_only, without_trailing,
};

verus! {

/// How many seconds connecting may take.
pub const CONNECT_TIMEOUT_SECS: u64 = 30;

/// How many idle connections to keep.
pub const POOL_MAX_IDLE: usize = 4;

/// How many seconds a health probe may take.
pub const HEALTH_TIMEOUT_SECS: u64 = 5;

/// How many seconds a request other than a chat may take.
pub const REQUEST_TIMEOUT_SECS: u64 = 15;

/// Why a request to Hermes failed.
#[derive(Debug, Clone, PartialEq, Eq)]
pub enum HermesError {
    /// The exchange itself failed, with the reason.
    Transport(String),
    /// Hermes does not know the API key.
    Auth,
    /// Hermes does not know the session.
    SessionNotFound,
    /// Hermes answered with another status that is no success.
    Status { status: u16, body: String },
}

/// What a [`HermesError`] says.
#[verifier::ext_equal]
pub enum HermesErrorView {
    Transport(Seq<char>),
    Auth,
    SessionNotFound,
    Status { status: u16, body: Seq<char> },
}

impl HermesErrorView {
    /// The error in words.
    pub open spec fn message(self) -> Seq<char> {
        match self {
            HermesErrorView::Transport(e) => "HTTP transport error: "@ + e,
            HermesErrorView::Auth => "authentication failed (401): check the Hermes API key"@,
            HermesErrorView::SessionNotFound => "session not found (404)"@,
            HermesErrorView::Status { status, body } => "Hermes returned "@ + decimal(
                status as nat,
            ) + ": "@ + body,
        }
    }
}

impl DeepView for HermesError {
    type V = HermesErrorView;

    open spec fn deep_view(&self) -> HermesErrorView {
        match self {
            HermesError::Transport(e) => HermesErrorView::Transport(e@),
            HermesError::Auth => HermesErrorView::Auth,
            HermesError::SessionNotFound => HermesErrorView::SessionNotFound,
            HermesError::Status { status, body } => HermesErrorView::Status {
                status: *status,
                body: body@,
            },
        }
    }
}

impl HermesError {
    /// The error in words.
    pub fn message(&self) -> (r: String)
        ensures
            r@ == self.deep_view().message(),
    {
        match self {
            HermesError::Transport(e) => "HTTP transport error: ".to_owned().concat(e.as_str()),
            HermesError::Auth =>
                "authentication failed (401): check the Hermes API key".to_owned(),
            HermesError::SessionNotFound => "session not found (404)".to_owned(),
            HermesError::Status { status, body } => "Hermes returned ".to_owned().concat(
                decimal_text(*status as u64).as_str(),
            ).concat(": ").concat(body.as_str()),
        }
    }
}

/// The error that a status stands for; none where it reports success.
pub open spec fn status_error(status: u16, body: Seq<char>) -> Option<HermesErrorView> {
    if success(status) {
        None
    } else if status == 401 {
        Some(HermesErrorView::Auth)
    } else if status == 404 {
        Some(HermesErrorView::SessionNotFound)
    } else {
        Some(HermesErrorView::Status { status, body })
    }
}

/// The text of a reply; empty where it could not be read.
pub open spec fn body_text(body: Option<String>) -> Seq<char> {
    match body {
        Some(b) => b@,
        None => Seq::empty(),
    }
}

/// Translates an HTTP status that is no success into a typed error. `body` is
/// the text of the reply, `None` where it could not be read.
pub fn status_failure(status: u16, body: Option<String>) -> (r: HermesError)
    requires
        !success(status),
    ensures
        Some(r.deep_view()) == status_error(status, body_text(body)),
{
    if status == 401 {
        HermesError::Auth
    } else if status == 404 {
        HermesError::SessionNotFound
    } else {
        HermesError::Status {
            status,
            body: match body {
                Some(b) => b,
                None => String::new(),
            },
        }
    }
}

/// Lets a success pass and translates any other HTTP status into a typed error.
/// `body` is the text of the reply, `None` where it could not be read.
pub fn check_status(status: u16, body: Option<String>) -> (r: Result<(), HermesError>)
    ensures
        r is Ok <==> success(status),
        r matches Err(e) ==> Some(e.deep_view()) == status_error(status, body_text(body)),
        (match r {
            Ok(_) => None,
            Err(e) => Some(e.deep_view()),
        }) == status_error(status, body_text(body)),
{
    if is_success(status) {
        Ok(())
    } else {
        Err(status_failure(status, body))
    }
}

/// The health probe was answered with success.
pub open spec fn answers_well(status: Option<u16>) -> bool {
    status matches Some(s) && success(s)
}

/// Is Hermes up, going by the status that its health probe answered with
/// (`None` where there was no answer)?
pub fn health_ok(status: Option<u16>) -> (r: bool)
    ensures
        r == answers_well(status),
{
    match status {
        Some(s) => is_success(s),
        None => false,
    }
}

/// The members of the body that creates a session.
pub open spec fn session_fields(id: Option<Seq<char>>, title: Option<Seq<char>>) -> Map<
    Seq<char>,
    Seq<char>,
> {
    let m = match id {
        Some(i) => Map::empty().insert("id"@, i),
        None => Map::empty(),
    };
    match title {
        Some(t) => m.insert("title"@, t),
        None => m,
    }
}

fn create_session_body(id: Option<&str>, title: Option<&str>) -> (r: String)
    ensures
        r@ == object_json(session_fields(id.deep_view(), title.deep_view())),
        reads_back(r@, session_fields(id.deep_view(), title.deep_view())),
{
    let mut fields: Vec<(String, String)> = Vec::new();
    if let Some(i) = id {
        fields.push(("id".to_owned(), i.to_owned()));
    }
    if let Some(t) = title {
        fields.push(("title".to_owned(), t.to_owned()));
    }
    proof {
        reveal_strlit("id");
        reveal_strlit("title");
        reveal_with_fuel(lookup, 3);
        assert("id"@.len() != "title"@.len());
        assert(members(fields.deep_view()) =~= session_fields(id.deep_view(), title.deep_view()));
    }
    write_object(fields)
}

fn chat_body(message: &str) -> (r: String)
    ensures
        r@ == object_json(Map::empty().insert("message"@, message@)),
        reads_back(r@, Map::empty().insert("message"@, message@)),
{
    let mut fields: Vec<(String, String)> = Vec::new();
    fields.push(("message".to_owned(), message.to_owned()));
    proof {
        reveal_strlit("message");
        reveal_with_fuel(lookup, 2);
        assert(members(fields.deep_view()) =~= Map::empty().insert("message"@, message@));
    }
    write_object(fields)
}

/// Client for the Hermes session and chat API: where it is and the key to
/// present.
#[derive(Debug, Clone, PartialEq, Eq)]
pub struct HermesClient {
    base_url: String,
    api_key: String,
}

/// What a [`HermesClient`] knows.
#[verifier::ext_equal]
pub struct HermesClientView {
    pub base_url: Seq<char>,
    pub api_key: Seq<char>,
}

impl View for HermesClient {
    type V = HermesClientView;

    closed spec fn view(&self) -> HermesClientView {
        HermesClientView { base_url: self.base_url@, api_key: self.api_key@ }
    }
}

impl HermesClientView {
    /// The request that carries the key and may take [`REQUEST_TIMEOUT_SECS`].
    pub open spec fn request(
        self,
        method: Method,
        path: Seq<char>,
        body: Option<Seq<char>>,
    ) -> ApiRequestView {
        ApiRequestView {
            method,
            url: self.base_url + path,
            bearer: Some(self.api_key),
            body,
            timeout_secs: Some(REQUEST_TIMEOUT_SECS),
        }
    }

    /// The client for the server at `base_url`.
    pub open spec fn at(base_url: Seq<char>, api_key: Seq<char>) -> Self {
        HermesClientView { base_url: without_trailing(base_url, '/'), api_key }
    }

    /// The health probe.
    pub open spec fn health_request(self) -> ApiRequestView {
        ApiRequestView {
            method: Method::Get,
            url: self.base_url + "/health"@,
            bearer: None,
            body: None,
            timeout_secs: Some(HEALTH_TIMEOUT_SECS),
        }
    }

    /// The request that creates a session.
    pub open spec fn create_request(
        self,
        id: Option<Seq<char>>,
        title: Option<Seq<char>>,
    ) -> ApiRequestView {
        self.request(
            Method::Post,
            "/api/sessions"@,
            Some(object_json(session_fields(id, title))),
        )
    }

    /// The request that lists the sessions.
    pub open spec fn list_request(self) -> ApiRequestView {
        self.request(Method::Get, "/api/sessions"@, None)
    }

    /// The request for the history of a session.
    pub open spec fn messages_request(self, session_id: Seq<char>) -> ApiRequestView {
        self.request(Method::Get, "/api/sessions/"@ + session_id + "/messages"@, None)
    }

    /// The request that sends a message and streams the reply.
    pub open spec fn chat_request(self, session_id: Seq<char>, message: Seq<char>) -> ApiRequestView {
        ApiRequestView {
            timeout_secs: None,
            ..self.request(
                Method::Post,
                "/api/sessions/"@ + session_id + "/chat/stream"@,
                Some(object_json(Map::empty().insert("message"@, message))),
            )
        }
    }
}

impl HermesClient {
    /// A client for the server at `base_url`; slashes at its end do not count.
    pub fn new(base_url: &str, api_key: &str) -> (r: Self)
        ensures
            r@ == HermesClientView::at(base_url@, api_key@),
    {
        HermesClient { base_url: strip_trailing(base_url, '/'), api_key: api_key.to_owned() }
    }

    fn url(&self, path: &str) -> (r: String)
        ensures
            r@ == self@.base_url + path@,
    {
        self.base_url.clone().concat(path)
    }

    fn request(&self, method: Method, path: &str, body: Option<String>) -> (r: ApiRequest)
        ensures
            r@ == self@.request(method, path@, body.deep_view()),
    {
        ApiRequest {
            method,
            url: self.url(path),
            bearer: Some(self.api_key.clone()),
            body,
            timeout_secs: Some(REQUEST_TIMEOUT_SECS),
        }
    }

    /// `GET /health`, without the key.
    pub fn health(&self) -> (r: ApiRequest)
        ensures
            r@ == self@.health_request(),
    {
        ApiRequest {
            method: Method::Get,
            url: self.url("/health"),
            bearer: None,
            body: None,
            timeout_secs: Some(HEALTH_TIMEOUT_SECS),
        }
    }

    /// `POST /api/sessions`: creates a session, optionally with a client id
    /// (e.g. a `desktop_` prefixed id) and title. The body is an object with
    /// just those of the two that there are.
    pub fn create_session(&self, id: Option<&str>, title: Option<&str>) -> (r: ApiRequest)
        ensures
            r@ == self@.create_request(id.deep_view(), title.deep_view()),
            reads_back(r@.body->0, session_fields(id.deep_view(), title.deep_view())),
    {
        self.request(Method::Post, "/api/sessions", Some(create_session_body(id, title)))
    }

    /// `GET /api/sessions`: lists sessions (newest first).
    pub fn list_sessions(&self) -> (r: ApiRequest)
        ensures
            r@ == self@.list_request(),
    {
        self.request(Method::Get, "/api/sessions", None)
    }

    /// `GET /api/sessions/{id}/messages`: the history of a session.
    pub fn get_messages(&self, session_id: &str) -> (r: ApiRequest)
        ensures
            r@ == self@.messages_request(session_id@),
    {
        let path = "/api/sessions/".to_owned().concat(session_id).concat("/messages");
        self.request(Method::Get, path.as_str(), None)
    }

    /// `POST /api/sessions/{id}/chat/stream`: sends a message and streams the
    /// reply. The stream is long-lived, so there is no limit on its time.
    pub fn chat_stream(&self, session_id: &str, message: &str) -> (r: ApiRequest)
        ensures
            r@ == self@.chat_request(session_id@, message@),
            reads_back(r@.body->0, Map::empty().insert("message"@, message@)),
    {
        let path = "/api/sessions/".to_owned().concat(session_id).concat("/chat/stream");
        let req = self.request(Method::Post, path.as_str(), Some(chat_body(message)));
        ApiRequest { timeout_secs: None, ..req }
    }
}

/// A status is no error exactly from 200 to 299; 401 and nothing else is a wrong
/// key, 404 and nothing else a missing session; and every other status is passed
/// on with its number and the text of the reply.
pub proof fn statuses_mean_what_they_say(status: u16, body: Seq<char>)
    ensures
        status_error(status, body) is None <==> 200 <= status <= 299,
        status_error(status, body) == Some(HermesErrorView::Auth) <==> status == 401,
        status_error(status, body) == Some(HermesErrorView::SessionNotFound) <==> status == 404,
        !(200 <= status <= 299) && status != 401 && status != 404 ==> status_error(status, body)
            == Some(HermesErrorView::Status { status, body }),
        answers_well(Some(status)) <==> 200 <= status <= 299,
        !answers_well(None),
{
}

/// The text of a reply is kept as it is; a reply without one has the empty text.
pub proof fn reply_text_is_kept(body: String)
    ensures
        body_text(Some(body)) == body@,
        body_text(None).len() == 0,
{
}

/// Every error is told in words of its own, followed by all of the detail that
/// came with it; a status is told by its number.
pub proof fn hermes_errors_tell_their_detail(detail: Seq<char>, status: u16)
    ensures
        HermesErrorView::Transport(detail).message() == "HTTP transport error: "@ + detail,
        HermesErrorView::Auth.message()
            == "authentication failed (401): check the Hermes API key"@,
        HermesErrorView::SessionNotFound.message() == "session not found (404)"@,
        ({
            let m = HermesErrorView::Status { status, body: detail }.message();
            let front = "Hermes returned "@;
            exists|number: Seq<char>|
                m == #[trigger] (front + number) + ": "@ + detail && decimal_value(number) == status
                    && (forall|i: int|
                    0 <= i < number.len() ==> 48 <= (#[trigger] number[i]) as int <= 57)
        }),
{
    decimal_reads_back(status as nat);
    let number = decimal(status as nat);
    assert(HermesErrorView::Status { status, body: detail }.message() == ("Hermes returned "@
        + number) + ": "@ + detail);
}

/// A session is created with the id and the title that were handed in, and with
/// nothing that was not.
pub proof fn new_session_has_what_was_handed_in(
    id: Option<Seq<char>>,
    title: Option<Seq<char>>,
    key: Seq<char>,
)
    ensures
        ({
            let m = session_fields(id, title);
            &&& m.contains_key("id"@) <==> id is Some
            &&& id is Some ==> m["id"@] == id->0
            &&& m.contains_key("title"@) <==> title is Some
            &&& title is Some ==> m["title"@] == title->0
            &&& m.contains_key(key) ==> key == "id"@ || key == "title"@
        }),
{
    reveal_strlit("id");
    reveal_strlit("title");
    assert("id"@.len() != "title"@.len());
}

/// A client presents its key with every request but the health probe, and talks
/// to its own server: the address is where the client was told, without the
/// slashes at its end, followed by the path of the request. A chat goes to the
/// session that it is for, under its message as it is, and may take its time.
pub proof fn requests_go_where_they_should(
    base: Seq<char>,
    key: Seq<char>,
    session: Seq<char>,
    message: Seq<char>,
    id: Option<Seq<char>>,
    title: Option<Seq<char>>,
)
    ensures
        ({
            let c = HermesClientView::at(base, key);
            let host = c.base_url;
            let chat = c.chat_request(session, message);
            let create = c.create_request(id, title);
            let list = c.list_request();
            let history = c.messages_request(session);
            let health = c.health_request();
            &&& host == base.take(host.len() as int)
            &&& forall|i: int| host.len() <= i < base.len() ==> #[trigger] base[i] == '/'
            &&& host.len() > 0 ==> host.last() != '/'
            &&& chat.url == host + "/api/sessions/"@ + session + "/chat/stream"@
            &&& chat.body == Some(object_json(map!["message"@ => message]))
            &&& chat.method is Post && chat.bearer == Some(key) && chat.timeout_secs is None
            &&& create.url == host + "/api/sessions"@
            &&& create.body == Some(object_json(session_fields(id, title)))
            &&& create.method is Post && create.bearer == Some(key) && create.timeout_secs == Some(
                15u64,
            )
            &&& list.url == host + "/api/sessions"@
            &&& list.method is Get && list.bearer == Some(key) && list.body is None
                && list.timeout_secs == Some(15u64)
            &&& history.url == host + "/api/sessions/"@ + session + "/messages"@
            &&& history.method is Get && history.bearer == Some(key) && history.body is None
                && history.timeout_secs == Some(15u64)
            &&& health.url == host + "/health"@
            &&& health.method is Get && health.bearer is None && health.body is None
                && health.timeout_secs == Some(5u64)
        }),
{
    stripping_takes_a_trailing_run_only(base, '/');
    let c = HermesClientView::at(base, key);
    assert(c.chat_request(session, message).url =~= c.base_url + "/api/sessions/"@ + session
        + "/chat/stream"@);
    assert(c.messages_request(session).url =~= c.base_url + "/api/sessions/"@ + session
        + "/messages"@);
    assert(map!["message"@ => message] =~= Map::empty().insert("message"@, message));
}

} // verus!
