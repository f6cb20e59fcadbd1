//! The answers to requests that Hermes has to be asked for.

use vstd::prelude::*;
use vstd::string::*;

use crate::hermes::client::{HermesError, HermesErrorView};
use crate::ipc::protocol::{DaemonMessage, DaemonMessageView, SessionInfo, SessionInfoView};

verus! {

/// An error that answers the request `request_id`.
pub open spec fn error_for(request_id: Seq<char>, message: Seq<char>) -> DaemonMessageView {
    DaemonMessageView::Error { request_id: Some(request_id), message }
}

pub(crate) fn send_error(request_id: &str, message: String) -> (r: DaemonMessage)
    ensures
        r@ == error_for(request_id@, message@),
{
    DaemonMessage::Error { request_id: Some(request_id.to_owned()), message }
}

/// Which sessions a request asks for.
#[derive(Debug, Clone, PartialEq, Eq)]
pub enum Wanted {
    /// All sessions of the desktop platform.
    Desktop,
    /// The session with this id.
    Only(String),
}

/// What a [`Wanted`] says.
#[verifier::ext_equal]
pub enum WantedView {
    Desktop,
    Only(Seq<char>),
}

impl View for Wanted {
    type V = WantedView;

    open spec fn view(&self) -> WantedView {
        match self {
            Wanted::Desktop => WantedView::Desktop,
            Wanted::Only(id) => WantedView::Only(id@),
        }
    }
}

/// The session belongs to the desktop platform.
pub open spec fn is_desktop(s: SessionInfoView) -> bool {
    s.source == Some("desktop"@)
}

/// The first session of `all` with the given id.
pub open spec fn find_session(all: Seq<SessionInfoView>, id: Seq<char>) -> Option<SessionInfoView>
    decreases all.len(),
{
    if all.len() == 0 {
        None
    } else if all[0].id == id {
        Some(all[0])
    } else {
        find_session(all.drop_first(), id)
    }
}

/// The answer to a request for sessions. The switcher sees the sessions of the
/// desktop platform only, in the order in which Hermes lists them; resuming
/// gives the one session asked for, or an error if it has been reset.
pub open spec fn sessions_answer(
    request_id: Seq<char>,
    wanted: WantedView,
    outcome: Result<Seq<SessionInfoView>, HermesErrorView>,
) -> DaemonMessageView {
    match (outcome, wanted) {
        (Err(e), _) => error_for(request_id, e.message()),
        (Ok(all), WantedView::Desktop) => DaemonMessageView::Sessions {
            request_id,
            data: all.filter(|s: SessionInfoView| is_desktop(s)),
        },
        (Ok(all), WantedView::Only(id)) => match find_session(all, id) {
            Some(s) => DaemonMessageView::Sessions { request_id, data: seq![s] },
            None => error_for(request_id, "session has been reset"@),
        },
    }
}

fn desktop_only(all: Vec<SessionInfo>) -> (r: Vec<SessionInfo>)
    ensures
        r.deep_view() == all.deep_view().filter(|s: SessionInfoView| is_desktop(s)),
{
    let ghost views = all.deep_view();
    let ghost keep = |s: SessionInfoView| is_desktop(s);
    let mut out: Vec<SessionInfo> = Vec::new();
    assert(out.deep_view() =~= views.take(0).filter(keep)) by {
        reveal(Seq::filter);
    }
    for s in it: all
        invariant
            it.seq() == all@,
            views == all.deep_view(),
            keep == (|s: SessionInfoView| is_desktop(s)),
            out.deep_view() == views.take(it.index() as int).filter(keep),
    {
        let ghost before = out.deep_view();
        let ghost view = s.deep_view();
        proof {
            reveal(Seq::filter);
            assert(view == views[it.index() as int]);
            assert(views.take(it.index() + 1).drop_last() =~= views.take(it.index() as int));
        }
        let desktop = match &s.source {
            Some(source) => *source.as_str() == *"desktop",
            None => false,
        };
        if desktop {
            out.push(s);
            assert(out.deep_view() =~= before.push(view));
        }
    }
    assert(views.take(all@.len() as int) =~= views);
    out
}

fn only_session(all: Vec<SessionInfo>, id: &str) -> (r: Option<SessionInfo>)
    ensures
        r.deep_view() == find_session(all.deep_view(), id@),
{
    let ghost views = all.deep_view();
    assert(views.skip(0) =~= views);
    for s in it: all
        invariant
            it.seq() == all@,
            views == all.deep_view(),
            find_session(views, id@) == find_session(views.skip(it.index() as int), id@),
    {
        assert(views.skip(it.index() as int)[0] == s.deep_view());
        assert(views.skip(it.index() as int).drop_first() =~= views.skip(it.index() + 1));
        if *s.id.as_str() == *id {
            return Some(s);
        }
    }
    None
}

/// Answers a request for sessions from what Hermes answered.
pub fn sessions_reply(
    request_id: String,
    wanted: Wanted,
    outcome: Result<Vec<SessionInfo>, HermesError>,
) -> (r: DaemonMessage)
    ensures
        r@ == sessions_answer(
            request_id@,
            wanted@,
            (match outcome {
                Ok(v) => Ok(v.deep_view()),
                Err(e) => Err(e.deep_view()),
            }),
        ),
{
    match outcome {
        Ok(all) => match wanted {
            Wanted::Desktop => DaemonMessage::Sessions { request_id, data: desktop_only(all) },
            Wanted::Only(id) => match only_session(all, id.as_str()) {
                Some(s) => {
                    let data = vec![s];
                    assert(data.deep_view() =~= seq![s.deep_view()]);
                    DaemonMessage::Sessions { request_id, data }
                },
                None => send_error(request_id.as_str(), "session has been reset".to_owned()),
            },
        },
        Err(e) => send_error(request_id.as_str(), e.message()),
    }
}

/// The answer to a request for the history of a session.
pub open spec fn messages_answer(
    request_id: Seq<char>,
    session_id: Seq<char>,
    outcome: Result<Seq<Seq<char>>, HermesErrorView>,
) -> DaemonMessageView {
    match outcome {
        Ok(data) => DaemonMessageView::Messages { request_id, session_id, data },
        Err(e) => error_for(request_id, e.message()),
    }
}

/// Answers a request for the history of a session from what Hermes answered.
pub fn messages_reply(
    request_id: String,
    session_id: String,
    outcome: Result<Vec<String>, HermesError>,
) -> (r: DaemonMessage)
    ensures
        r@ == messages_answer(
            request_id@,
            session_id@,
            (match outcome {
                Ok(v) => Ok(v.deep_view()),
                Err(e) => Err(e.deep_view()),
            }),
        ),
{
    match outcome {
        Ok(data) => DaemonMessage::Messages { request_id, session_id, data },
        Err(e) => send_error(request_id.as_str(), e.message()),
    }
}

/// Every answer to a fetch carries the id of its request, whatever came back.
pub proof fn fetched_answer_keeps_the_request_id(
    request_id: Seq<char>,
    wanted: WantedView,
    session_id: Seq<char>,
    sessions: Result<Seq<SessionInfoView>, HermesErrorView>,
    messages: Result<Seq<Seq<char>>, HermesErrorView>,
)
    ensures
        sessions_answer(request_id, wanted, sessions).addressee() == Some(request_id),
        messages_answer(request_id, session_id, messages).addressee() == Some(request_id),
{
}

proof fn lemma_find_session(all: Seq<SessionInfoView>, id: Seq<char>)
    ensures
        match find_session(all, id) {
            Some(s) => s.id == id && all.contains(s),
            None => forall|i: int| 0 <= i < all.len() ==> (#[trigger] all[i]).id != id,
        },
    decreases all.len(),
{
    if all.len() > 0 {
        let rest = all.drop_first();
        lemma_find_session(rest, id);
        if all[0].id == id {
            assert(all.contains(all[0]));
        } else {
            match find_session(rest, id) {
                Some(s) => {
                    let i = choose|i: int| 0 <= i < rest.len() && rest[i] == s;
                    assert(all[i + 1] == s);
                },
                None => {
                    assert forall|i: int| 0 <= i < all.len() implies (#[trigger] all[i]).id
                        != id by {
                        if i > 0 {
                            assert(all[i] == rest[i - 1]);
                        }
                    }
                },
            }
        }
    }
}

/// Resuming gives exactly one session, which has the id asked for and is one
/// that Hermes lists, or else an error, and that exactly when Hermes lists no
/// session with that id.
pub proof fn resume_gives_the_session_or_an_error(
    request_id: Seq<char>,
    id: Seq<char>,
    all: Seq<SessionInfoView>,
)
    ensures
        match sessions_answer(request_id, WantedView::Only(id), Ok(all)) {
            DaemonMessageView::Sessions { data, .. } => data.len() == 1 && data[0].id == id
                && all.contains(data[0]),
            DaemonMessageView::Error { .. } => forall|i: int|
                0 <= i < all.len() ==> (#[trigger] all[i]).id != id,
            _ => false,
        },
{
    lemma_find_session(all, id);
}

/// The switcher shows desktop sessions only, and every one that Hermes lists.
pub proof fn switcher_shows_desktop_sessions(request_id: Seq<char>, all: Seq<SessionInfoView>)
    ensures
        sessions_answer(request_id, WantedView::Desktop, Ok(all)) matches
            DaemonMessageView::Sessions { data, .. } && (forall|s: SessionInfoView| #[trigger]
            data.contains(s) <==> all.contains(s) && is_desktop(s)),
{
    let keep = |s: SessionInfoView| is_desktop(s);
    let data = all.filter(keep);
    assert forall|s: SessionInfoView| #[trigger] data.contains(s) <==> all.contains(s)
        && is_desktop(s) by {
        if all.contains(s) && keep(s) {
            let i = choose|i: int| 0 <= i < all.len() && all[i] == s;
            all.lemma_filter_contains(keep, i);
        }
        if data.contains(s) {
            all.lemma_filter_contains_rev(keep, s);
            all.lemma_filter_pred(keep, data.index_of(s));
        }
    }
}

/// A history that Hermes answers with is handed on under the request and the
/// session that it is for, message for message: none is missing, none is added,
/// and none has another place. A refusal is told under the request, in the words
/// of the error.
pub proof fn history_is_handed_on(
    request: Seq<char>,
    session: Seq<char>,
    history: Seq<Seq<char>>,
    e: HermesErrorView,
)
    ensures
        messages_answer(request, session, Ok(history)) matches DaemonMessageView::Messages {
            request_id,
            session_id,
            data,
        } && request_id == request && session_id == session && data.len() == history.len() && (
        forall|i: int| 0 <= i < history.len() ==> #[trigger] data[i] == history[i]),
        messages_answer(request, session, Err(e)) matches DaemonMessageView::Error {
            request_id,
            message,
        } && request_id == Some(request) && message == e.message(),
{
}

/// The sessions that the switcher shows of those that Hermes lists.
pub open spec fn shown(request_id: Seq<char>, all: Seq<SessionInfoView>) -> Seq<SessionInfoView> {
    sessions_answer(request_id, WantedView::Desktop, Ok(all))->Sessions_data
}

/// The switcher keeps the order in which Hermes lists the sessions, and goes by
/// each session alone: of one session it shows all where its source is
/// `desktop`, and nothing otherwise; and of two lists, one after the other, what
/// it shows of the first and then what it shows of the second.
pub proof fn switcher_keeps_the_order(
    request: Seq<char>,
    s: SessionInfoView,
    first: Seq<SessionInfoView>,
    second: Seq<SessionInfoView>,
)
    ensures
        sessions_answer(request, WantedView::Desktop, Ok(first)) matches
            DaemonMessageView::Sessions { request_id, .. } && request_id == request,
        shown(request, Seq::empty()).len() == 0,
        s.source == Some("desktop"@) ==> shown(request, seq![s]) == seq![s],
        s.source != Some("desktop"@) ==> shown(request, seq![s]).len() == 0,
        shown(request, first + second) == shown(request, first) + shown(request, second),
{
    let keep = |s: SessionInfoView| is_desktop(s);
    reveal(Seq::filter);
    assert(seq![s].drop_last() =~= Seq::empty());
    assert(Seq::<SessionInfoView>::empty().filter(keep) =~= Seq::empty());
    Seq::filter_distributes_over_add(first, second, keep);
    if s.source == Some("desktop"@) {
        assert(shown(request, seq![s]) =~= seq![s]);
    }
}

/// Resuming gives the first session that Hermes lists under the id, as it lists
/// it, and says that the session has been reset where there is none. Where
/// Hermes refuses, the answer is its error, whatever was asked for.
pub proof fn resume_gives_the_first(
    request: Seq<char>,
    id: Seq<char>,
    all: Seq<SessionInfoView>,
    k: int,
    wanted: WantedView,
    e: HermesErrorView,
)
    requires
        0 <= k <= all.len(),
        forall|i: int| 0 <= i < k ==> (#[trigger] all[i]).id != id,
        k < all.len() ==> all[k].id == id,
    ensures
        k < all.len() ==> (sessions_answer(request, WantedView::Only(id), Ok(all)) matches
            DaemonMessageView::Sessions { request_id, data } && request_id == request && data
            == seq![all[k]]),
        k == all.len() ==> (sessions_answer(request, WantedView::Only(id), Ok(all)) matches
            DaemonMessageView::Error { request_id, message } && request_id == Some(request)
            && message == "session has been reset"@),
        sessions_answer(request, wanted, Err(e)) matches DaemonMessageView::Error {
            request_id,
            message,
        } && request_id == Some(request) && message == e.message(),
    decreases k,
{
    if k > 0 {
        let rest = all.drop_first();
        assert(all[0].id != id);
        assert forall|i: int| 0 <= i < k - 1 implies (#[trigger] rest[i]).id != id by {
            assert(all[i + 1].id != id);
        }
        resume_gives_the_first(request, id, rest, k - 1, wanted, e);
    }
}

} // verus!
