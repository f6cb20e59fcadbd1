//! Desktop notifications: what goes into a call of the freedesktop
//! `Notify` method.

use vstd::prelude::*;
use vstd::string::*;

use crate::text::{
    ascii_lowercase, first_chars, first_chars_are_a_beginning, lowering_changes_capitals_only,
    take_chars, to_ascii_lowercase,
};

verus! {

/// The application name that notifications are shown under.
pub const APP_NAME: &'static str = "Roci";

/// Max length of a launcher response delivered as a desktop notification.
pub const NOTIFY_MAX_LEN: usize = 280;

/// Notification urgency levels.
#[derive(Debug, Clone, Copy, PartialEq, Eq, Structural)]
pub enum Urgency {
    Low,
    Normal,
    Critical,
}

/// The urgency that a free text stands for, whatever its ASCII case; any other
/// text, and none at all, stand for `Normal`.
pub open spec fn urgency_named(s: Option<Seq<char>>) -> Urgency {
    match s {
        Some(t) => if ascii_lowercase(t) == "low"@ {
            Urgency::Low
        } else if ascii_lowercase(t) == "critical"@ {
            Urgency::Critical
        } else {
            Urgency::Normal
        },
        None => Urgency::Normal,
    }
}

/// Texts that differ in nothing but the case of ASCII letters stand for the
/// same urgency.
pub proof fn urgency_ignores_ascii_case(a: Seq<char>, b: Seq<char>)
    requires
        ascii_lowercase(a) == ascii_lowercase(b),
    ensures
        urgency_named(Some(a)) == urgency_named(Some(b)),
{
}

/// The byte that stands for a level in a call.
pub open spec fn hint_of(urgency: Urgency) -> u8 {
    match urgency {
        Urgency::Low => 0u8,
        Urgency::Normal => 1u8,
        Urgency::Critical => 2u8,
    }
}

impl Urgency {
    /// Maps a free-text urgency to a level, defaulting to `Normal`.
    pub fn from_opt(s: Option<&str>) -> (r: Self)
        ensures
            r == urgency_named(s.deep_view()),
    {
        match s {
            Some(t) => {
                let lower = to_ascii_lowercase(t);
                if *lower.as_str() == *"low" {
                    Urgency::Low
                } else if *lower.as_str() == *"critical" {
                    Urgency::Critical
                } else {
                    Urgency::Normal
                }
            },
            None => Urgency::Normal,
        }
    }

    /// The byte that stands for the level in a call.
    pub fn hint(self) -> (r: u8)
        ensures
            r == hint_of(self),
    {
        match self {
            Urgency::Low => 0,
            Urgency::Normal => 1,
            Urgency::Critical => 2,
        }
    }
}

/// The arguments of one call of `org.freedesktop.Notifications.Notify`; the
/// list of actions is always empty.
#[derive(Debug, Clone, PartialEq, Eq)]
pub struct NotifyCall {
    pub app_name: String,
    /// The notification to replace; 0 for a new one.
    pub replaces_id: u32,
    /// The icon's name; empty for none.
    pub app_icon: String,
    pub summary: String,
    pub body: String,
    /// The `urgency` hint.
    pub urgency: u8,
    /// Milliseconds to show it; -1 leaves that to the server.
    pub expire_timeout: i32,
}

/// What a [`NotifyCall`] says.
#[verifier::ext_equal]
pub struct NotifyCallView {
    pub app_name: Seq<char>,
    pub replaces_id: u32,
    pub app_icon: Seq<char>,
    pub summary: Seq<char>,
    pub body: Seq<char>,
    pub urgency: u8,
    pub expire_timeout: i32,
}

impl DeepView for NotifyCall {
    type V = NotifyCallView;

    open spec fn deep_view(&self) -> NotifyCallView {
        NotifyCallView {
            app_name: self.app_name@,
            replaces_id: self.replaces_id,
            app_icon: self.app_icon@,
            summary: self.summary@,
            body: self.body@,
            urgency: self.urgency,
            expire_timeout: self.expire_timeout,
        }
    }
}

/// The call that shows `title` and `body`: a new notification under the
/// application's name, with the icon if there is one, shown for as long as the
/// server sees fit.
pub open spec fn notify_call(
    title: Seq<char>,
    body: Seq<char>,
    urgency: Urgency,
    icon: Option<Seq<char>>,
) -> NotifyCallView {
    NotifyCallView {
        app_name: APP_NAME@,
        replaces_id: 0,
        app_icon: match icon {
            Some(i) => i,
            None => Seq::empty(),
        },
        summary: title,
        body: body,
        urgency: hint_of(urgency),
        expire_timeout: -1i32,
    }
}

/// Builds the call that shows a notification.
pub fn build_call(title: &str, body: &str, urgency: Urgency, icon: Option<&str>) -> (r: NotifyCall)
    ensures
        r.deep_view() == notify_call(title@, body@, urgency, icon.deep_view()),
{
    NotifyCall {
        app_name: APP_NAME.to_owned(),
        replaces_id: 0,
        app_icon: match icon {
            Some(i) => i.to_owned(),
            None => String::new(),
        },
        summary: title.to_owned(),
        body: body.to_owned(),
        urgency: urgency.hint(),
        expire_timeout: -1,
    }
}

/// The notification that delivers a launcher reply: none without a session bus
/// or for an empty reply, else one with the first [`NOTIFY_MAX_LEN`] characters.
pub open spec fn launcher_call(bus: bool, content: Seq<char>) -> Option<NotifyCallView> {
    if bus && content.len() > 0 {
        Some(
            notify_call(
                APP_NAME@,
                first_chars(content, NOTIFY_MAX_LEN as nat),
                Urgency::Normal,
                None,
            ),
        )
    } else {
        None
    }
}

/// Builds the notification that delivers a launcher reply, so it is visible
/// without the panel open.
pub fn notify_launcher(bus: bool, content: &str) -> (r: Option<NotifyCall>)
    ensures
        r.deep_view() == launcher_call(bus, content@),
{
    if !bus || content.is_empty() {
        return None;
    }
    let body = take_chars(content, NOTIFY_MAX_LEN);
    Some(build_call(APP_NAME, body.as_str(), Urgency::Normal, None))
}

/// A launcher notification never carries more than [`NOTIFY_MAX_LEN`]
/// characters, and what it carries is how the reply begins.
pub proof fn launcher_notification_is_bounded(bus: bool, content: Seq<char>)
    ensures
        launcher_call(bus, content) matches Some(call) ==> {
            &&& call.body.len() <= NOTIFY_MAX_LEN
            &&& call.body == content.take(call.body.len() as int)
        },
{
    assert(content.take(content.len() as int) =~= content);
}

/// The text spells the word, which is in small letters, in small or capital
/// ASCII letters.
pub open spec fn spells(text: Seq<char>, word: Seq<char>) -> bool {
    &&& text.len() == word.len()
    &&& forall|i: int|
        0 <= i < word.len() ==> #[trigger] text[i] == word[i] || (97 <= word[i] as int <= 122
            && text[i] as int + 32 == word[i] as int)
}

proof fn lemma_spells(text: Seq<char>, word: Seq<char>)
    requires
        forall|i: int| 0 <= i < word.len() ==> 97 <= (#[trigger] word[i]) as int <= 122,
    ensures
        ascii_lowercase(text) == word <==> spells(text, word),
{
    lowering_changes_capitals_only(text);
    let low = ascii_lowercase(text);
    if low == word {
        assert forall|i: int| 0 <= i < word.len() implies #[trigger] text[i] == word[i] || (97
            <= word[i] as int <= 122 && text[i] as int + 32 == word[i] as int) by {
            assert(low[i] == word[i]);
        }
    }
    if spells(text, word) {
        assert forall|i: int| 0 <= i < word.len() implies low[i] == word[i] by {
            assert(text[i] == word[i] || text[i] as int + 32 == word[i] as int);
            assert(low[i] as int == word[i] as int);
        }
        assert(low =~= word);
    }
}

/// A text stands for `Low` exactly when it spells that word in letters of any
/// case, for `Critical` likewise, and else, or without a text, for `Normal`; and
/// the three levels are told apart by the bytes 0, 1 and 2.
pub proof fn urgency_is_spelled_out(text: Seq<char>)
    ensures
        urgency_named(Some(text)) is Low <==> spells(text, seq!['l', 'o', 'w']),
        urgency_named(Some(text)) is Critical <==> spells(
            text,
            seq!['c', 'r', 'i', 't', 'i', 'c', 'a', 'l'],
        ),
        urgency_named(None) is Normal,
        hint_of(Urgency::Low) == 0,
        hint_of(Urgency::Normal) == 1,
        hint_of(Urgency::Critical) == 2,
{
    reveal_strlit("low");
    reveal_strlit("critical");
    let low = seq!['l', 'o', 'w'];
    let critical = seq!['c', 'r', 'i', 't', 'i', 'c', 'a', 'l'];
    assert("low"@ =~= low);
    assert("critical"@ =~= critical);
    lemma_spells(text, low);
    lemma_spells(text, critical);
    if spells(text, low) && spells(text, critical) {
        assert(low.len() == critical.len());
    }
}

/// A notification shows exactly the title and the body that were handed in,
/// with the icon that was, if any, under the application's own name, as a new
/// one, for as long as the server sees fit; and its urgency tells the level.
pub proof fn notification_shows_what_was_asked_for(
    title: Seq<char>,
    body: Seq<char>,
    urgency: Urgency,
    icon: Option<Seq<char>>,
)
    ensures
        ({
            let call = notify_call(title, body, urgency, icon);
            &&& call.summary == title
            &&& call.body == body
            &&& icon is Some ==> call.app_icon == icon->0
            &&& icon is None ==> call.app_icon.len() == 0
            &&& call.app_name == "Roci"@
            &&& call.replaces_id == 0
            &&& call.expire_timeout == -1
            &&& call.urgency == 0 <==> urgency is Low
            &&& call.urgency == 1 <==> urgency is Normal
            &&& call.urgency == 2 <==> urgency is Critical
        }),
{
}

/// A launcher reply is delivered whenever there is a bus and a text to deliver:
/// its first 280 characters, one for one, or all of them where there are fewer,
/// as a notification of normal urgency under the application's name.
pub proof fn launcher_reply_is_delivered(bus: bool, content: Seq<char>)
    ensures
        launcher_call(bus, content) is Some <==> bus && content.len() > 0,
        launcher_call(bus, content) matches Some(call) ==> {
            &&& call.body.len() == if content.len() < 280 {
                content.len() as int
            } else {
                280
            }
            &&& forall|i: int|
                0 <= i < call.body.len() ==> #[trigger] call.body[i] == content[i]
            &&& call.summary == "Roci"@
            &&& call.app_name == "Roci"@
            &&& call.app_icon.len() == 0
            &&& call.urgency == 1
        },
{
    first_chars_are_a_beginning(content, NOTIFY_MAX_LEN as nat);
}

} // verus!
