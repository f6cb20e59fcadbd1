//! The desktop tools: notify, launch_app, screenshot.
//!
//! Each tool comes in two parts: what it asks of the desktop, and what it
//! answers once the desktop has done it or failed.

use base64::Engine;
use vstd::prelude::*;
use vstd::string::*;

use crate::desktop::notify::{
    build_call, notify_call, urgency_named, NotifyCall, NotifyCallView, Urgency,
};
use crate::desktop::screenshot::{
    target_named, window_is_asked_for_by_name, ScreenshotError, ScreenshotErrorView, Target,
};
use crate::ipc::protocol::{DaemonMessage, DaemonMessageView};
use crate::text::{decimal, decimal_reads_back, decimal_text, decimal_value};

verus! {

/// What the server tells its clients about itself.
pub const INSTRUCTIONS: &'static str =
    "Desktop control surface for rh-anine: notifications, app launching, and screenshots.";

/// What the clients are told of `desktop_notify`.
pub const NOTIFY_DESCRIPTION: &'static str =
    "Show a desktop notification on the user's screen (rh-anine). Use this to surface short messages, alerts, or the result of an action.";

/// What the clients are told of `desktop_launch_app`.
pub const LAUNCH_DESCRIPTION: &'static str =
    "Launch a desktop application on rh-anine. The command runs directly (no shell, no expansion); pass arguments via 'args'.";

/// What the clients are told of `desktop_screenshot`.
pub const SCREENSHOT_DESCRIPTION: &'static str =
    "Capture a screenshot of the desktop and return it as a PNG image. target 'screen' (default) captures the focused screen; 'window' captures the focused window.";

/// The media type of a screenshot.
pub const SCREENSHOT_MIME: &'static str = "image/png";

/// Asks for a notification.
#[derive(Debug, Clone, PartialEq, Eq)]
pub struct NotifyRequest {
    /// Notification title / summary line.
    pub title: String,
    /// Notification body text.
    pub body: String,
    /// Urgency: "low", "normal" (default), or "critical".
    pub urgency: Option<String>,
    /// Optional freedesktop icon name (e.g. "dialog-information").
    pub icon: Option<String>,
}

/// Asks for an application to be launched.
#[derive(Debug, Clone, PartialEq, Eq)]
pub struct LaunchRequest {
    /// Executable to run (argv[0]). This is not a shell line: there is no
    /// shell expansion; pass arguments via `args`.
    pub command: String,
    /// Optional arguments, each a separate argv entry.
    pub args: Option<Vec<String>>,
}

/// Asks for a screenshot.
#[derive(Debug, Clone, PartialEq, Eq)]
pub struct ScreenshotRequest {
    /// "screen" (default) for the focused screen, or "window" for the focused
    /// window.
    pub target: Option<String>,
}

/// A process to spawn, its arguments handed over one by one.
#[derive(Debug, Clone, PartialEq, Eq)]
pub struct Launch {
    pub command: String,
    pub args: Vec<String>,
}

/// What a [`Launch`] says.
#[verifier::ext_equal]
pub struct LaunchView {
    pub command: Seq<char>,
    pub args: Seq<Seq<char>>,
}

impl DeepView for Launch {
    type V = LaunchView;

    open spec fn deep_view(&self) -> LaunchView {
        LaunchView { command: self.command@, args: self.args.deep_view() }
    }
}

/// Why a tool failed.
#[derive(Debug, Clone, PartialEq, Eq)]
pub struct ToolError {
    pub message: String,
}

/// What a tool answers.
#[derive(Debug, Clone, PartialEq, Eq)]
pub enum ToolReply {
    Text(String),
    /// An image: its bytes in base64, and its media type.
    Image { data: String, mime_type: String },
}

/// What a [`ToolReply`] says.
#[verifier::ext_equal]
pub enum ToolReplyView {
    Text(Seq<char>),
    Image { data: Seq<char>, mime_type: Seq<char> },
}

impl View for ToolReply {
    type V = ToolReplyView;

    open spec fn view(&self) -> ToolReplyView {
        match self {
            ToolReply::Text(t) => ToolReplyView::Text(t@),
            ToolReply::Image { data, mime_type } => ToolReplyView::Image {
                data: data@,
                mime_type: mime_type@,
            },
        }
    }
}

/// The base64 digit for `v`, for `v < 64`, in the standard alphabet.
pub open spec fn base64_digit(v: u8) -> char {
    if v < 26 {
        (65 + v) as char
    } else if v < 52 {
        (71 + v) as char
    } else if v < 62 {
        (v - 4) as char
    } else if v == 62 {
        '+'
    } else {
        '/'
    }
}

/// `bytes` in standard base64 with padding: four digits for every three bytes,
/// and equals signs for what the last group lacks.
pub open spec fn base64_of(bytes: Seq<u8>) -> Seq<char>
    decreases bytes.len(),
{
    if bytes.len() == 0 {
        Seq::empty()
    } else {
        let b0 = bytes[0];
        let b1 = if bytes.len() > 1 {
            bytes[1]
        } else {
            0
        };
        let b2 = if bytes.len() > 2 {
            bytes[2]
        } else {
            0
        };
        seq![
            base64_digit(b0 / 4),
            base64_digit(((b0 % 4) * 16 + b1 / 16) as u8),
            if bytes.len() > 1 {
                base64_digit(((b1 % 16) * 4 + b2 / 64) as u8)
            } else {
                '='
            },
            if bytes.len() > 2 {
                base64_digit(b2 % 64)
            } else {
                '='
            },
        ] + (if bytes.len() > 3 {
            base64_of(bytes.skip(3))
        } else {
            Seq::empty()
        })
    }
}

/// The length of the base64 text of so many bytes.
pub open spec fn base64_len(n: nat) -> nat {
    4 * ((n + 2) / 3)
}

/// `base64::engine::general_purpose::STANDARD.encode`: bytes in the standard
/// alphabet of base64, with padding. The text must not be longer than anything
/// in memory can be.
#[verifier::external_body]
fn encode_base64(bytes: &[u8]) -> (r: String)
    requires
        base64_len(bytes@.len()) <= isize::MAX,
    ensures
        r@ == base64_of(bytes@),
{
    base64::engine::general_purpose::STANDARD.encode(bytes)
}

/// The desktop tools.
#[derive(Debug, Clone, PartialEq, Eq)]
pub struct DesktopServer {
    /// There is a session bus to show notifications by.
    bus: bool,
}

impl View for DesktopServer {
    type V = bool;

    /// There is a session bus.
    closed spec fn view(&self) -> bool {
        self.bus
    }
}

/// The notification that a request asks for.
pub open spec fn requested_call(req: NotifyRequest) -> NotifyCallView {
    notify_call(
        req.title@,
        req.body@,
        urgency_named(req.urgency.deep_view()),
        req.icon.deep_view(),
    )
}

/// The toast by which subscribed panels learn of a notification.
pub open spec fn toast_for(req: NotifyRequest) -> DaemonMessageView {
    DaemonMessageView::Toast { title: req.title@, body: req.body@, icon: req.icon.deep_view() }
}

/// What the desktop did: the number that came of it, or why nothing did.
pub open spec fn told(outcome: Result<u32, String>) -> Result<u32, Seq<char>> {
    match outcome {
        Ok(n) => Ok(n),
        Err(reason) => Err(reason@),
    }
}

/// The call to make for a notification, or why there is none to make.
pub open spec fn notify_plan(bus: bool, req: NotifyRequest) -> Result<NotifyCallView, Seq<char>> {
    if bus {
        Ok(requested_call(req))
    } else {
        Err("D-Bus session bus unavailable"@)
    }
}

/// The answer once the notification was shown, with the toast, or could not be.
pub open spec fn notify_answer(req: NotifyRequest, outcome: Result<u32, Seq<char>>) -> Result<
    (ToolReplyView, DaemonMessageView),
    Seq<char>,
> {
    match outcome {
        Ok(id) => Ok(
            (
                ToolReplyView::Text("Notification sent (id: "@ + decimal(id as nat) + ")"@),
                toast_for(req),
            ),
        ),
        Err(reason) => Err("notification failed: "@ + reason),
    }
}

/// The process that a request asks for.
pub open spec fn launch_for(req: LaunchRequest) -> LaunchView {
    LaunchView {
        command: req.command@,
        args: match req.args {
            Some(args) => args.deep_view(),
            None => Seq::empty(),
        },
    }
}

/// The answer once the process was spawned, or could not be.
pub open spec fn launch_answer(command: Seq<char>, outcome: Result<u32, Seq<char>>) -> Result<
    ToolReplyView,
    Seq<char>,
> {
    match outcome {
        Ok(pid) => Ok(
            ToolReplyView::Text(
                "Launched "@ + command + " (pid: "@ + decimal(pid as nat) + ")"@,
            ),
        ),
        Err(reason) => Err("launch failed: "@ + reason),
    }
}

/// What a request asks to capture.
pub open spec fn target_for(req: ScreenshotRequest) -> Target {
    target_named(req.target.deep_view())
}

/// What came of a capture.
pub open spec fn captured_view(
    outcome: Result<Result<Vec<u8>, ScreenshotError>, String>,
) -> Result<Result<Seq<u8>, ScreenshotErrorView>, Seq<char>> {
    match outcome {
        Ok(Ok(png)) => Ok(Ok(png@)),
        Ok(Err(failure)) => Ok(Err(failure.deep_view())),
        Err(reason) => Err(reason@),
    }
}

/// The answer once a capture is over.
pub open spec fn screenshot_answer(
    outcome: Result<Result<Seq<u8>, ScreenshotErrorView>, Seq<char>>,
) -> Result<ToolReplyView, Seq<char>> {
    match outcome {
        Ok(Ok(png)) => Ok(
            ToolReplyView::Image { data: base64_of(png), mime_type: SCREENSHOT_MIME@ },
        ),
        Ok(Err(failure)) => Err(failure.message()),
        Err(reason) => Err("join error: "@ + reason),
    }
}

/// A toast is a broadcast: it answers no request.
pub proof fn toast_is_a_broadcast(req: NotifyRequest)
    ensures
        toast_for(req).addressee() is None,
{
}

fn as_deref(s: &Option<String>) -> (r: Option<&str>)
    ensures
        r.deep_view() == s.deep_view(),
{
    match s {
        Some(t) => Some(t.as_str()),
        None => None,
    }
}

impl DesktopServer {
    /// The tools, with or without a session bus.
    pub fn new(bus: bool) -> (r: Self)
        ensures
            r@ == bus,
    {
        DesktopServer { bus }
    }

    /// Shows a desktop notification: the call to make, or an error where there
    /// is no session bus.
    pub fn desktop_notify(&self, req: &NotifyRequest) -> (r: Result<NotifyCall, ToolError>)
        ensures
            match r {
                Ok(call) => self@ && call.deep_view() == requested_call(*req),
                Err(e) => !self@ && e.message@ == "D-Bus session bus unavailable"@,
            },
            (match r {
                Ok(call) => Ok(call.deep_view()),
                Err(e) => Err(e.message@),
            }) == notify_plan(self@, *req),
    {
        if !self.bus {
            return Err(ToolError { message: "D-Bus session bus unavailable".to_owned() });
        }
        let urgency = Urgency::from_opt(as_deref(&req.urgency));
        Ok(
            build_call(req.title.as_str(), req.body.as_str(), urgency, as_deref(&req.icon)),
        )
    }

    /// Answers once the notification was shown, under the id that it got, or
    /// could not be. Where it was, a toast goes to the subscribed panels too.
    pub fn notify_done(req: NotifyRequest, outcome: Result<u32, String>) -> (r: Result<
        (ToolReply, DaemonMessage),
        ToolError,
    >)
        ensures
            match (r, outcome) {
                (Ok(p), Ok(id)) => {
                    &&& p.0@ == ToolReplyView::Text(
                        "Notification sent (id: "@ + decimal(id as nat) + ")"@,
                    )
                    &&& p.1@ == toast_for(req)
                },
                (Err(e), Err(reason)) => e.message@ == "notification failed: "@ + reason@,
                _ => false,
            },
            (match r {
                Ok(p) => Ok((p.0@, p.1@)),
                Err(e) => Err(e.message@),
            }) == notify_answer(req, told(outcome)),
    {
        match outcome {
            Ok(id) => {
                let text = "Notification sent (id: ".to_owned().concat(
                    decimal_text(id as u64).as_str(),
                ).concat(")");
                Ok(
                    (
                        ToolReply::Text(text),
                        DaemonMessage::Toast { title: req.title, body: req.body, icon: req.icon },
                    ),
                )
            },
            Err(reason) => Err(
                ToolError { message: "notification failed: ".to_owned().concat(reason.as_str()) },
            ),
        }
    }

    /// Launches a desktop application: the process to spawn, directly and not
    /// through a shell, so every argument arrives as it was given.
    pub fn desktop_launch_app(req: LaunchRequest) -> (r: Launch)
        ensures
            r.command == req.command,
            r.deep_view() == launch_for(req),
    {
        let args: Vec<String> = match req.args {
            Some(args) => args,
            None => {
                let none: Vec<String> = Vec::new();
                assert(none.deep_view() =~= Seq::<Seq<char>>::empty());
                none
            },
        };
        Launch { command: req.command, args }
    }

    /// Answers once the process was spawned, under its process id, or could
    /// not be.
    pub fn launch_done(command: &str, outcome: Result<u32, String>) -> (r: Result<
        ToolReply,
        ToolError,
    >)
        ensures
            match (r, outcome) {
                (Ok(reply), Ok(pid)) => reply@ == ToolReplyView::Text(
                    "Launched "@ + command@ + " (pid: "@ + decimal(pid as nat) + ")"@,
                ),
                (Err(e), Err(reason)) => e.message@ == "launch failed: "@ + reason@,
                _ => false,
            },
            (match r {
                Ok(reply) => Ok(reply@),
                Err(e) => Err(e.message@),
            }) == launch_answer(command@, told(outcome)),
    {
        match outcome {
            Ok(pid) => Ok(
                ToolReply::Text(
                    "Launched ".to_owned().concat(command).concat(" (pid: ").concat(
                        decimal_text(pid as u64).as_str(),
                    ).concat(")"),
                ),
            ),
            Err(reason) => Err(
                ToolError { message: "launch failed: ".to_owned().concat(reason.as_str()) },
            ),
        }
    }

    /// Captures a screenshot: what to capture.
    pub fn desktop_screenshot(req: &ScreenshotRequest) -> (r: Target)
        ensures
            r == target_for(*req),
    {
        Target::from_opt(as_deref(&req.target))
    }

    /// Answers once the capture is over: the PNG in base64, or the error.
    /// `outcome` is itself an error where the capturing task did not come to
    /// its end.
    pub fn screenshot_done(outcome: Result<Result<Vec<u8>, ScreenshotError>, String>) -> (r: Result<
        ToolReply,
        ToolError,
    >)
        requires
            outcome matches Ok(Ok(png)) ==> base64_len(png@.len()) <= isize::MAX,
        ensures
            match (r, outcome) {
                (Ok(reply), Ok(Ok(png))) => reply@ == (ToolReplyView::Image {
                    data: base64_of(png@),
                    mime_type: SCREENSHOT_MIME@,
                }),
                (Err(e), Ok(Err(failure))) => e.message@ == failure.deep_view().message(),
                (Err(e), Err(reason)) => e.message@ == "join error: "@ + reason@,
                _ => false,
            },
            (match r {
                Ok(reply) => Ok(reply@),
                Err(e) => Err(e.message@),
            }) == screenshot_answer(captured_view(outcome)),
    {
        match outcome {
            Ok(captured) => match captured {
                Ok(png) => Ok(
                    ToolReply::Image {
                        data: encode_base64(png.as_slice()),
                        mime_type: SCREENSHOT_MIME.to_owned(),
                    },
                ),
                Err(failure) => Err(ToolError { message: failure.message() }),
            },
            Err(reason) => Err(
                ToolError { message: "join error: ".to_owned().concat(reason.as_str()) },
            ),
        }
    }
}

/// With a session bus, the notification that is asked for is shown: its title,
/// its body and its icon as they are, under the urgency that is named. Without a
/// bus there is an error and no call.
pub proof fn notification_is_the_one_asked_for(req: NotifyRequest)
    ensures
        notify_plan(true, req) matches Ok(call) && {
            &&& call.summary == req.title@
            &&& call.body == req.body@
            &&& req.icon is Some ==> call.app_icon == req.icon->0@
            &&& req.icon is None ==> call.app_icon.len() == 0
            &&& call.urgency == (match urgency_named(req.urgency.deep_view()) {
                Urgency::Low => 0u8,
                Urgency::Normal => 1u8,
                Urgency::Critical => 2u8,
            })
        },
        notify_plan(false, req) == Err::<NotifyCallView, _>("D-Bus session bus unavailable"@),
{
}

/// The number stands, in decimal, between `front` and `back`.
pub open spec fn tells_number(
    text: Seq<char>,
    front: Seq<char>,
    number: u32,
    back: Seq<char>,
) -> bool {
    exists|digits: Seq<char>|
        text == #[trigger] (front + digits) + back && decimal_value(digits) == number && (forall|
            i: int,
        |
            0 <= i < digits.len() ==> 48 <= (#[trigger] digits[i]) as int <= 57)
}

/// A notification that was shown is answered with the id that it got, and told
/// to the panels by a toast with its title, its body and its icon as they are.
/// One that could not be is answered by an error that ends in the whole reason.
pub proof fn notification_is_told(req: NotifyRequest, id: u32, reason: Seq<char>)
    ensures
        notify_answer(req, Ok(id)) matches Ok((
            ToolReplyView::Text(text),
            DaemonMessageView::Toast { title, body, icon },
        )) && tells_number(text, "Notification sent (id: "@, id, ")"@) && title == req.title@ && body
            == req.body@ && icon == req.icon.deep_view(),
        notify_answer(req, Err(reason)) == Err::<(ToolReplyView, DaemonMessageView), _>(
            "notification failed: "@ + reason,
        ),
{
    decimal_reads_back(id as nat);
    let digits = decimal(id as nat);
    let text = "Notification sent (id: "@ + digits + ")"@;
    assert(tells_number(text, "Notification sent (id: "@, id, ")"@));
}

/// The process is the one asked for: its command as it is, and every argument as
/// it is, in order and none besides.
pub proof fn process_is_the_one_asked_for(command: String, args: Vec<String>)
    ensures
        ({
            let l = launch_for(LaunchRequest { command, args: Some(args) });
            &&& l.command == command@
            &&& l.args.len() == args@.len()
            &&& forall|i: int| 0 <= i < args@.len() ==> #[trigger] l.args[i] == args@[i]@
        }),
        ({
            let l = launch_for(LaunchRequest { command, args: None });
            l.command == command@ && l.args.len() == 0
        }),
{
}

/// A process that was spawned is answered with its command and its number, one
/// that could not be by an error that ends in the whole reason.
pub proof fn launch_is_told(command: Seq<char>, pid: u32, reason: Seq<char>)
    ensures
        launch_answer(command, Ok(pid)) matches Ok(ToolReplyView::Text(text)) && tells_number(
            text,
            "Launched "@ + command + " (pid: "@,
            pid,
            ")"@,
        ),
        launch_answer(command, Err(reason)) == Err::<ToolReplyView, _>("launch failed: "@ + reason),
{
    decimal_reads_back(pid as nat);
    let digits = decimal(pid as nat);
    let front = "Launched "@ + command + " (pid: "@;
    assert(tells_number(front + digits + ")"@, front, pid, ")"@));
}

/// The window is captured exactly when `window` is asked for, and else the
/// screen.
pub proof fn window_is_captured_on_request(name: String)
    ensures
        target_for(ScreenshotRequest { target: Some(name) }) is Window <==> name@.len() == 6
            && name@[0] == 'w' && name@[1] == 'i' && name@[2] == 'n' && name@[3] == 'd' && name@[4]
            == 'o' && name@[5] == 'w',
        target_for(ScreenshotRequest { target: None }) is Screen,
{
    window_is_asked_for_by_name(name@);
}

/// A capture is answered by an image with the bytes of the PNG, under the media
/// type of one; a failure in its own words, and a task that did not come to its
/// end by the whole reason.
pub proof fn screenshot_is_told(png: Seq<u8>, failure: ScreenshotErrorView, reason: Seq<char>)
    ensures
        screenshot_answer(Ok(Ok(png))) matches Ok(ToolReplyView::Image { data, mime_type }) && data
            == base64_of(png) && mime_type == "image/png"@,
        screenshot_answer(Ok(Err(failure))) == Err::<ToolReplyView, _>(failure.message()),
        screenshot_answer(Err(reason)) == Err::<ToolReplyView, _>("join error: "@ + reason),
{
}

/// The value of a base64 digit of the standard alphabet.
pub open spec fn base64_value(c: char) -> int {
    let v = c as int;
    if 65 <= v <= 90 {
        v - 65
    } else if 97 <= v <= 122 {
        v - 71
    } else if 48 <= v <= 57 {
        v + 4
    } else if v == 43 {
        62
    } else {
        63
    }
}

proof fn lemma_base64_digit(v: u8)
    requires
        v < 64,
    ensures
        base64_value(base64_digit(v)) == v,
        base64_digit(v) != '=',
{
}

/// Every byte can be read back from the base64 text: the first of three from the
/// first two digits of its group of four, the second from the two in the middle,
/// the third from the last two. The text has four characters for every three
/// bytes, or for what is left of them.
pub proof fn base64_reads_back(bytes: Seq<u8>, i: int)
    requires
        0 <= i < bytes.len(),
    ensures
        ({
            let t = base64_of(bytes);
            let g = 4 * (i / 3);
            &&& t.len() == base64_len(bytes.len())
            &&& i % 3 == 0 ==> bytes[i] == 4 * base64_value(t[g]) + base64_value(t[g + 1]) / 16
            &&& i % 3 == 1 ==> bytes[i] == 16 * (base64_value(t[g + 1]) % 16) + base64_value(
                t[g + 2],
            ) / 4
            &&& i % 3 == 2 ==> bytes[i] == 64 * (base64_value(t[g + 2]) % 4) + base64_value(
                t[g + 3],
            )
        }),
    decreases bytes.len(),
{
    let t = base64_of(bytes);
    let b0 = bytes[0];
    let b1 = if bytes.len() > 1 {
        bytes[1]
    } else {
        0
    };
    let b2 = if bytes.len() > 2 {
        bytes[2]
    } else {
        0
    };
    lemma_base64_digit(b0 / 4);
    lemma_base64_digit(((b0 % 4) * 16 + b1 / 16) as u8);
    lemma_base64_digit(((b1 % 16) * 4 + b2 / 64) as u8);
    lemma_base64_digit(b2 % 64);
    if bytes.len() > 3 {
        let rest = bytes.skip(3);
        if i >= 3 {
            base64_reads_back(rest, i - 3);
            assert(rest[i - 3] == bytes[i]);
            let g = 4 * ((i - 3) / 3);
            assert(4 * (i / 3) == g + 4);
            assert(t[g + 4] == base64_of(rest)[g]);
            assert(t[g + 5] == base64_of(rest)[g + 1]);
            assert(t[g + 6] == base64_of(rest)[g + 2]);
            assert(t[g + 7] == base64_of(rest)[g + 3]);
        } else {
            base64_reads_back(rest, 0);
        }
    }
}

/// An answer goes by what the desktop did: the number and the bytes as they
/// came, and every failure with its own reason.
pub proof fn outcomes_are_taken_as_they_came(
    n: u32,
    reason: String,
    png: Vec<u8>,
    failure: ScreenshotError,
)
    ensures
        told(Ok(n)) == Ok::<u32, Seq<char>>(n),
        told(Err(reason)) == Err::<u32, _>(reason@),
        captured_view(Ok(Ok(png))) == Ok::<_, Seq<char>>(Ok::<_, ScreenshotErrorView>(png@)),
        captured_view(Ok(Err(failure))) == Ok::<_, Seq<char>>(
            Err::<Seq<u8>, _>(failure.deep_view()),
        ),
        captured_view(Err(reason)) == Err::<Result<Seq<u8>, ScreenshotErrorView>, _>(reason@),
{
}

} // verus!
