//! The messages of the JSON-lines IPC protocol that the daemon and its local
//! clients speak.
//!
//! Client requests carry a `request_id` so the daemon can correlate streamed
//! responses; broadcast events (toasts, status changes) omit it.

use vstd::prelude::*;

pub use super::status;

verus! {

/// A request sent from a local client (panel, launcher, ctl) to the daemon.
#[allow(inconsistent_fields)]
#[derive(Debug, Clone, PartialEq, Eq)]
pub enum ClientMessage {
    /// Send a chat message. Without a `session_id` the daemon mints a fresh
    /// ephemeral conversation (launcher semantics).
    Chat { request_id: String, session_id: Option<String>, message: String },
    /// Create a new desktop session (returns `SessionCreated`).
    SessionCreate { request_id: String, title: Option<String> },
    /// List known sessions (returns `Sessions`).
    SessionList { request_id: String },
    /// Fetch the history of a session (returns `Messages`).
    SessionMessages { request_id: String, session_id: String },
    /// Resume an existing session by id (returns `Sessions` with one entry,
    /// or `Error` if the session has been reset).
    SessionResume { request_id: String, session_id: String },
    /// Cancel the in-flight chat for the given request id.
    Cancel { request_id: String },
    /// Query daemon and Hermes status (returns a `Status` event addressed to
    /// the requester).
    Status { request_id: String },
    /// List the models of the picker (returns `Models`).
    ModelList { request_id: String },
    /// Choose the model for new sessions.
    SetModel { request_id: String, model: String },
    /// Opt into broadcast events (toasts, status changes). Used by the panel.
    Subscribe { request_id: Option<String> },
}

impl ClientMessage {
    /// The correlation id that the message carries, if any.
    pub open spec fn correlation(self) -> Option<Seq<char>> {
        match self {
            ClientMessage::Chat { request_id, .. } => Some(request_id@),
            ClientMessage::SessionCreate { request_id, .. } => Some(request_id@),
            ClientMessage::SessionList { request_id } => Some(request_id@),
            ClientMessage::SessionMessages { request_id, .. } => Some(request_id@),
            ClientMessage::SessionResume { request_id, .. } => Some(request_id@),
            ClientMessage::Cancel { request_id } => Some(request_id@),
            ClientMessage::Status { request_id } => Some(request_id@),
            ClientMessage::ModelList { request_id } => Some(request_id@),
            ClientMessage::SetModel { request_id, .. } => Some(request_id@),
            ClientMessage::Subscribe { request_id } => request_id.deep_view(),
        }
    }

    /// The correlation id, if this message carries one.
    pub fn request_id(&self) -> (r: Option<&str>)
        ensures
            r.deep_view() == self.correlation(),
            !(self is Subscribe) ==> r is Some,
    {
        match self {
            ClientMessage::Chat { request_id, .. } => Some(request_id.as_str()),
            ClientMessage::SessionCreate { request_id, .. } => Some(request_id.as_str()),
            ClientMessage::SessionList { request_id } => Some(request_id.as_str()),
            ClientMessage::SessionMessages { request_id, .. } => Some(request_id.as_str()),
            ClientMessage::SessionResume { request_id, .. } => Some(request_id.as_str()),
            ClientMessage::Cancel { request_id } => Some(request_id.as_str()),
            ClientMessage::Status { request_id } => Some(request_id.as_str()),
            ClientMessage::ModelList { request_id } => Some(request_id.as_str()),
            ClientMessage::SetModel { request_id, .. } => Some(request_id.as_str()),
            ClientMessage::Subscribe { request_id } => match request_id {
                Some(id) => Some(id.as_str()),
                None => None,
            },
        }
    }
}

/// Minimal session descriptor surfaced to clients.
#[derive(Debug, Clone, PartialEq, Eq)]
pub struct SessionInfo {
    pub id: String,
    pub title: Option<String>,
    /// The platform that the session belongs to.
    pub source: Option<String>,
}

/// What a [`SessionInfo`] says.
#[verifier::ext_equal]
pub struct SessionInfoView {
    pub id: Seq<char>,
    pub title: Option<Seq<char>>,
    pub source: Option<Seq<char>>,
}

impl DeepView for SessionInfo {
    type V = SessionInfoView;

    open spec fn deep_view(&self) -> SessionInfoView {
        SessionInfoView {
            id: self.id@,
            title: self.title.deep_view(),
            source: self.source.deep_view(),
        }
    }
}

/// One entry of the model picker.
#[derive(Debug, Clone, PartialEq, Eq)]
pub struct ModelInfo {
    pub id: String,
    /// The router holds the model in memory.
    pub loaded: bool,
    /// The model is the one chosen for new sessions.
    pub active: bool,
}

/// What a [`ModelInfo`] says.
#[verifier::ext_equal]
pub struct ModelInfoView {
    pub id: Seq<char>,
    pub loaded: bool,
    pub active: bool,
}

impl DeepView for ModelInfo {
    type V = ModelInfoView;

    open spec fn deep_view(&self) -> ModelInfoView {
        ModelInfoView { id: self.id@, loaded: self.loaded, active: self.active }
    }
}

/// A response or event sent from the daemon back to a client.
#[allow(inconsistent_fields)]
#[derive(Debug, Clone, PartialEq, Eq)]
pub enum DaemonMessage {
    /// Incremental assistant output for an in-flight chat.
    Delta { request_id: String, content: String },
    /// The whole assistant output so far; it replaces what was shown before.
    Draft { request_id: String, content: String },
    /// A tool invocation progress update during a chat run.
    ToolProgress { request_id: String, tool_name: String, status: String },
    /// A chat run finished. `content` is the final assistant message, `usage`
    /// the JSON text of an opaque usage object.
    ChatComplete { request_id: String, content: String, usage: Option<String> },
    /// Response to `SessionCreate`.
    SessionCreated {
        request_id: String,
        session_id: String,
        title: Option<String>,
        model: Option<String>,
    },
    /// Response to `SessionList` and `SessionResume`.
    Sessions { request_id: String, data: Vec<SessionInfo> },
    /// Response to `SessionMessages`; each entry is the JSON text of one
    /// opaque history message.
    Messages { request_id: String, session_id: String, data: Vec<String> },
    /// Response to `ModelList`.
    Models { request_id: String, data: Vec<ModelInfo> },
    /// The daemon transparently rotated a reset session; the panel should
    /// adopt `new_id`.
    SessionReset { request_id: Option<String>, old_id: String, new_id: String },
    /// A broadcast toast (e.g. a launcher response or a remote-action notice).
    Toast { title: String, body: String, icon: Option<String> },
    /// A broadcast (or requester-addressed) status snapshot.
    Status { hermes: String, daemon: String, request_id: Option<String> },
    /// An error, optionally tied to a request.
    Error { request_id: Option<String>, message: String },
}

/// What a [`DaemonMessage`] says.
#[allow(inconsistent_fields)]
#[verifier::ext_equal]
pub enum DaemonMessageView {
    Delta { request_id: Seq<char>, content: Seq<char> },
    Draft { request_id: Seq<char>, content: Seq<char> },
    ToolProgress { request_id: Seq<char>, tool_name: Seq<char>, status: Seq<char> },
    ChatComplete { request_id: Seq<char>, content: Seq<char>, usage: Option<Seq<char>> },
    SessionCreated {
        request_id: Seq<char>,
        session_id: Seq<char>,
        title: Option<Seq<char>>,
        model: Option<Seq<char>>,
    },
    Sessions { request_id: Seq<char>, data: Seq<SessionInfoView> },
    Messages { request_id: Seq<char>, session_id: Seq<char>, data: Seq<Seq<char>> },
    Models { request_id: Seq<char>, data: Seq<ModelInfoView> },
    SessionReset { request_id: Option<Seq<char>>, old_id: Seq<char>, new_id: Seq<char> },
    Toast { title: Seq<char>, body: Seq<char>, icon: Option<Seq<char>> },
    Status { hermes: Seq<char>, daemon: Seq<char>, request_id: Option<Seq<char>> },
    Error { request_id: Option<Seq<char>>, message: Seq<char> },
}

impl DaemonMessageView {
    /// The request that the message answers; `None` for a broadcast.
    pub open spec fn addressee(self) -> Option<Seq<char>> {
        match self {
            DaemonMessageView::Delta { request_id, .. } => Some(request_id),
            DaemonMessageView::Draft { request_id, .. } => Some(request_id),
            DaemonMessageView::ToolProgress { request_id, .. } => Some(request_id),
            DaemonMessageView::ChatComplete { request_id, .. } => Some(request_id),
            DaemonMessageView::SessionCreated { request_id, .. } => Some(request_id),
            DaemonMessageView::Sessions { request_id, .. } => Some(request_id),
            DaemonMessageView::Messages { request_id, .. } => Some(request_id),
            DaemonMessageView::Models { request_id, .. } => Some(request_id),
            DaemonMessageView::SessionReset { request_id, .. } => request_id,
            DaemonMessageView::Toast { .. } => None,
            DaemonMessageView::Status { request_id, .. } => request_id,
            DaemonMessageView::Error { request_id, .. } => request_id,
        }
    }
}

impl View for DaemonMessage {
    type V = DaemonMessageView;

    open spec fn view(&self) -> DaemonMessageView {
        match self {
            DaemonMessage::Delta { request_id, content } => DaemonMessageView::Delta {
                request_id: request_id@,
                content: content@,
            },
            DaemonMessage::Draft { request_id, content } => DaemonMessageView::Draft {
                request_id: request_id@,
                content: content@,
            },
            DaemonMessage::ToolProgress { request_id, tool_name, status } =>
                DaemonMessageView::ToolProgress {
                    request_id: request_id@,
                    tool_name: tool_name@,
                    status: status@,
                },
            DaemonMessage::ChatComplete { request_id, content, usage } =>
                DaemonMessageView::ChatComplete {
                    request_id: request_id@,
                    content: content@,
                    usage: usage.deep_view(),
                },
            DaemonMessage::SessionCreated { request_id, session_id, title, model } =>
                DaemonMessageView::SessionCreated {
                    request_id: request_id@,
                    session_id: session_id@,
                    title: title.deep_view(),
                    model: model.deep_view(),
                },
            DaemonMessage::Sessions { request_id, data } => DaemonMessageView::Sessions {
                request_id: request_id@,
                data: data.deep_view(),
            },
            DaemonMessage::Messages { request_id, session_id, data } =>
                DaemonMessageView::Messages {
                    request_id: request_id@,
                    session_id: session_id@,
                    data: data.deep_view(),
                },
            DaemonMessage::Models { request_id, data } => DaemonMessageView::Models {
                request_id: request_id@,
                data: data.deep_view(),
            },
            DaemonMessage::SessionReset { request_id, old_id, new_id } =>
                DaemonMessageView::SessionReset {
                    request_id: request_id.deep_view(),
                    old_id: old_id@,
                    new_id: new_id@,
                },
            DaemonMessage::Toast { title, body, icon } => DaemonMessageView::Toast {
                title: title@,
                body: body@,
                icon: icon.deep_view(),
            },
            DaemonMessage::Status { hermes, daemon, request_id } => DaemonMessageView::Status {
                hermes: hermes@,
                daemon: daemon@,
                request_id: request_id.deep_view(),
            },
            DaemonMessage::Error { request_id, message } => DaemonMessageView::Error {
                request_id: request_id.deep_view(),
                message: message@,
            },
        }
    }
}

/// A request is answered under the id that it carries, whatever it asks for; a
/// subscription under the one that it carries, if any.
pub proof fn requests_carry_their_id(
    id: String,
    any: Option<String>,
    a: String,
    b: Option<String>,
    c: Option<String>,
)
    ensures
        (ClientMessage::Chat { request_id: id, session_id: b, message: a }).correlation() == Some(id@),
        (ClientMessage::SessionCreate { request_id: id, title: c }).correlation() == Some(id@),
        (ClientMessage::SessionList { request_id: id }).correlation() == Some(id@),
        (ClientMessage::SessionMessages { request_id: id, session_id: a }).correlation() == Some(id@),
        (ClientMessage::SessionResume { request_id: id, session_id: a }).correlation() == Some(id@),
        (ClientMessage::Cancel { request_id: id }).correlation() == Some(id@),
        (ClientMessage::Status { request_id: id }).correlation() == Some(id@),
        (ClientMessage::ModelList { request_id: id }).correlation() == Some(id@),
        (ClientMessage::SetModel { request_id: id, model: a }).correlation() == Some(id@),
        (ClientMessage::Subscribe { request_id: any }).correlation() == any.deep_view(),
{
}

/// Two messages that say the same are made of the same texts: what is known of
/// a message leaves out nothing that it carries.
pub proof fn messages_say_all_they_carry(id: String, text: String, other: String, m: DaemonMessage)
    ensures
        m@ == (DaemonMessage::Delta { request_id: id, content: text })@ ==> (m matches
            DaemonMessage::Delta { request_id, content } && request_id@ == id@ && content@ == text@),
        m@ == (DaemonMessage::Draft { request_id: id, content: text })@ ==> (m matches
            DaemonMessage::Draft { request_id, content } && request_id@ == id@ && content@ == text@),
        m@ == (DaemonMessage::ToolProgress { request_id: id, tool_name: text, status: other })@ ==> (
        m matches DaemonMessage::ToolProgress { request_id, tool_name, status } && request_id@ == id@
            && tool_name@ == text@ && status@ == other@),
        m@ == (DaemonMessage::ChatComplete { request_id: id, content: text, usage: Some(other) })@
            ==> (m matches DaemonMessage::ChatComplete { request_id, content, usage: Some(u) }
            && request_id@ == id@ && content@ == text@ && u@ == other@),
        m@ == (DaemonMessage::Status { hermes: text, daemon: other, request_id: Some(id) })@ ==> (
        m matches DaemonMessage::Status { hermes, daemon, request_id: Some(i) } && hermes@ == text@
            && daemon@ == other@ && i@ == id@),
        m@ == (DaemonMessage::Error { request_id: Some(id), message: text })@ ==> (m matches
            DaemonMessage::Error { request_id: Some(i), message } && i@ == id@ && message@ == text@),
        m@ == (DaemonMessage::Toast { title: id, body: text, icon: Some(other) })@ ==> (m matches
            DaemonMessage::Toast { title, body, icon: Some(i) } && title@ == id@ && body@ == text@
            && i@ == other@),
{
}

} // verus!
