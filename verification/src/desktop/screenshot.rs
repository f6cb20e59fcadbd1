//! Screenshots through the compositor's own screenshot actions.
//!
//! The compositor captures the focused screen or window and writes a PNG to a
//! path that the daemon chooses; the daemon then polls that path until the file
//! is there.

use vstd::prelude::*;
use vstd::string::*;

use super::png::{
    is_whole_png, magic_alone_is_not_whole, partial_png_is_not_whole, png_end, whole_png,
    PNG_MAGIC,
};
use crate::ids::{is_uuid_text, random_uuid_text};
use crate::paths::{is_absolute, join, joined, starts_at_root, PathBytes};
use crate::text::{
    encode_concat, is_white_space, lossy, lossy_text, trim, trimmed, trimming_takes_white_space_only,
    trimming_undoes_padding,
};

verus! {

/// How long to wait for the file, in seconds.
pub const CAPTURE_TIMEOUT_SECS: u64 = 5;

/// How long to sleep between two looks at the file, in milliseconds.
pub const POLL_INTERVAL_MILLIS: u64 = 50;

/// What to capture.
#[derive(Debug, Clone, Copy, PartialEq, Eq, Structural)]
pub enum Target {
    /// The focused screen.
    Screen,
    /// The focused window.
    Window,
}

/// The target that a text stands for: `"window"` for the window, any other
/// text, and none at all, for the screen.
pub open spec fn target_named(s: Option<Seq<char>>) -> Target {
    if s == Some("window"@) {
        Target::Window
    } else {
        Target::Screen
    }
}

impl Target {
    /// Maps a free-text target to what it stands for.
    pub fn from_opt(s: Option<&str>) -> (r: Self)
        ensures
            r == target_named(s.deep_view()),
    {
        match s {
            Some(t) => if *t == *"window" {
                Target::Window
            } else {
                Target::Screen
            },
            None => Target::Screen,
        }
    }
}

/// Why there is no screenshot.
#[derive(Debug, Clone, PartialEq, Eq)]
pub enum ScreenshotError {
    /// The session is locked.
    Locked,
    /// The compositor's socket failed, with the reason.
    NiriConnect(String),
    /// The compositor refused, with its message.
    Niri(String),
    /// No file came up at the given path.
    Timeout(String),
}

/// What a [`ScreenshotError`] says.
#[verifier::ext_equal]
pub enum ScreenshotErrorView {
    Locked,
    NiriConnect(Seq<char>),
    Niri(Seq<char>),
    Timeout(Seq<char>),
}

impl DeepView for ScreenshotError {
    type V = ScreenshotErrorView;

    open spec fn deep_view(&self) -> ScreenshotErrorView {
        match self {
            ScreenshotError::Locked => ScreenshotErrorView::Locked,
            ScreenshotError::NiriConnect(e) => ScreenshotErrorView::NiriConnect(e@),
            ScreenshotError::Niri(m) => ScreenshotErrorView::Niri(m@),
            ScreenshotError::Timeout(p) => ScreenshotErrorView::Timeout(p@),
        }
    }
}

impl ScreenshotErrorView {
    /// The error in words.
    pub open spec fn message(self) -> Seq<char> {
        match self {
            ScreenshotErrorView::Locked => "the session is locked"@,
            ScreenshotErrorView::NiriConnect(e) => "connecting to niri: "@ + e,
            ScreenshotErrorView::Niri(m) => "niri screenshot failed: "@ + m,
            ScreenshotErrorView::Timeout(p) => "screenshot file never materialized at "@ + p,
        }
    }
}

impl ScreenshotError {
    /// The error in words.
    pub fn message(&self) -> (r: String)
        ensures
            r@ == self.deep_view().message(),
    {
        match self {
            ScreenshotError::Locked => "the session is locked".to_owned(),
            ScreenshotError::NiriConnect(e) => "connecting to niri: ".to_owned().concat(e.as_str()),
            ScreenshotError::Niri(m) => "niri screenshot failed: ".to_owned().concat(m.as_str()),
            ScreenshotError::Timeout(p) => "screenshot file never materialized at ".to_owned()
                .concat(p.as_str()),
        }
    }
}

/// What a finished command left behind.
#[derive(Debug, Clone, PartialEq, Eq)]
pub struct CommandOutput {
    /// It exited with success.
    pub success: bool,
    /// What it wrote to its standard output.
    pub stdout: Vec<u8>,
}

/// The arguments with which `loginctl` tells whether a session is locked.
pub open spec fn lock_args(session_id: Seq<char>) -> Seq<Seq<char>> {
    seq!["show-session"@, session_id, "-p"@, "LockedHint"@, "--value"@]
}

/// The arguments with which `loginctl` tells whether a session is locked.
pub fn lock_query(session_id: &str) -> (r: Vec<String>)
    ensures
        r.deep_view() == lock_args(session_id@),
{
    let v = vec![
        "show-session".to_owned(),
        session_id.to_owned(),
        "-p".to_owned(),
        "LockedHint".to_owned(),
        "--value".to_owned(),
    ];
    assert(v.deep_view() =~= lock_args(session_id@));
    v
}

/// `loginctl`, which exited with success or not and wrote `stdout`, says that the
/// session is locked.
pub open spec fn says_locked(success: bool, stdout: Seq<u8>) -> bool {
    success && trimmed(lossy(stdout)) == "yes"@
}

/// The session counts as locked: `loginctl` could be asked and says so.
pub open spec fn counts_as_locked(output: Option<&CommandOutput>) -> bool {
    output matches Some(o) && says_locked(o.success, o.stdout@)
}

/// Best-effort lock check from what `loginctl` answered. `output` is `None`
/// where it could not be asked; a lock that cannot be determined counts as
/// none, so a missing `loginctl` never blocks screenshots.
pub fn session_locked(output: Option<&CommandOutput>) -> (r: bool)
    ensures
        r == counts_as_locked(output),
{
    match output {
        Some(o) => {
            if !o.success {
                return false;
            }
            let text = lossy_text(o.stdout.as_slice());
            let answer = trim(text.as_str());
            *answer.as_str() == *"yes"
        },
        None => false,
    }
}

/// The name of the file for the capture known as `id`.
pub open spec fn shot_name(id: Seq<char>) -> Seq<char> {
    "hermes-dms-shot-"@ + id + ".png"@
}

/// The path of the capture known as `id`, in the directory `dir`.
pub open spec fn shot_path_of(dir: Seq<u8>, id: Seq<char>) -> Seq<u8> {
    joined(dir, vstd::utf8::encode_utf8(shot_name(id)))
}

/// The path for the capture known as `id`, in the directory `dir`.
pub fn shot_path(dir: &[u8], id: &str) -> (r: PathBytes)
    ensures
        r@ == shot_path_of(dir@, id@),
{
    let name = "hermes-dms-shot-".to_owned().concat(id).concat(".png");
    join(dir, name.as_str())
}

/// A unique path for a capture, in the directory `dir`.
pub fn temp_path(dir: &[u8]) -> (r: PathBytes)
    ensures
        exists|id: Seq<char>| is_uuid_text(id) && r@ == #[trigger] shot_path_of(dir@, id),
{
    let id = random_uuid_text();
    let p = shot_path(dir, id.as_str());
    assert(is_uuid_text(id@) && p@ == shot_path_of(dir@, id@));
    p
}

/// The directory for captures where no other is absolute.
pub const FALLBACK_CAPTURE_DIR: &'static str = "/tmp";

/// The directory for captures: the runtime directory (local tmpfs) where there
/// is one that is absolute, else the directory for temporary files, and `/tmp`
/// where that is not absolute either.
pub open spec fn capture_dir_of(runtime_dir: Option<Seq<u8>>, temp_dir: Seq<u8>) -> Seq<u8> {
    match runtime_dir {
        Some(dir) if is_absolute(dir) => dir,
        _ => if is_absolute(temp_dir) {
            temp_dir
        } else {
            FALLBACK_CAPTURE_DIR.spec_bytes()
        },
    }
}

/// Chooses the directory for captures.
pub fn capture_dir(runtime_dir: Option<PathBytes>, temp_dir: PathBytes) -> (r: PathBytes)
    ensures
        r@ == capture_dir_of(
            (match runtime_dir {
                Some(dir) => Some(dir@),
                None => None,
            }),
            temp_dir@,
        ),
        is_absolute(r@),
{
    if let Some(dir) = runtime_dir {
        if starts_at_root(dir.as_slice()) {
            return dir;
        }
    }
    if starts_at_root(temp_dir.as_slice()) {
        return temp_dir;
    }
    proof {
        reveal_strlit("/tmp");
        vstd::utf8::is_ascii_chars_encode_utf8(FALLBACK_CAPTURE_DIR@);
    }
    FALLBACK_CAPTURE_DIR.as_bytes_vec()
}

/// The path of a capture below an absolute directory is absolute, lies below
/// that directory and ends in `.png`.
pub proof fn capture_path_is_an_absolute_png(dir: Seq<u8>, id: Seq<char>)
    requires
        is_absolute(dir),
    ensures
        is_absolute(shot_path_of(dir, id)),
        dir.is_prefix_of(shot_path_of(dir, id)),
        vstd::utf8::encode_utf8(".png"@).is_suffix_of(shot_path_of(dir, id)),
{
    let end = vstd::utf8::encode_utf8(".png"@);
    let front = "hermes-dms-shot-"@ + id;
    encode_concat(front, ".png"@);
    let p = shot_path_of(dir, id);
    assert(dir =~= p.take(dir.len() as int));
    assert(end =~= p.subrange(p.len() - end.len(), p.len() as int));
}

/// Captures known under different ids never share a path.
pub proof fn shot_paths_are_distinct(dir: Seq<u8>, a: Seq<char>, b: Seq<char>)
    requires
        shot_path_of(dir, a) == shot_path_of(dir, b),
    ensures
        a == b,
{
    let base = if dir.len() == 0 || dir.last() == 0x2f {
        dir
    } else {
        dir.push(0x2f)
    };
    let (na, nb) = (shot_name(a), shot_name(b));
    let (ea, eb) = (vstd::utf8::encode_utf8(na), vstd::utf8::encode_utf8(nb));
    assert((base + ea).skip(base.len() as int) =~= ea);
    assert((base + eb).skip(base.len() as int) =~= eb);
    vstd::utf8::encode_utf8_decode_utf8(na);
    vstd::utf8::encode_utf8_decode_utf8(nb);
    let p = "hermes-dms-shot-"@.len() as int;
    let e = ".png"@.len() as int;
    assert(na.subrange(p, na.len() - e) =~= a);
    assert(nb.subrange(p, nb.len() - e) =~= b);
}

/// A capture under way.
#[derive(Debug, Clone, PartialEq, Eq)]
pub struct Capture {
    pub target: Target,
    /// Where the compositor writes the file.
    pub path: PathBytes,
}

/// The screenshot action to hand to the compositor.
#[derive(Debug, Clone, PartialEq, Eq)]
pub struct ScreenshotAction {
    pub target: Target,
    pub write_to_disk: bool,
    pub show_pointer: bool,
    /// The path, as text.
    pub path: String,
}

/// How the compositor answered the action.
#[derive(Debug, Clone, PartialEq, Eq)]
pub enum ActionReply {
    /// It took the action on.
    Handled,
    /// It refused, with its message.
    Refused(String),
    /// Talking to it failed, with the reason.
    Failed(String),
}

/// What to do after a look at the file.
#[derive(Debug, Clone, PartialEq, Eq)]
pub enum Poll {
    /// Remove the file: the screenshot is complete.
    Ready(Vec<u8>),
    /// Remove the file: the time is up.
    Failed(ScreenshotError),
    /// Sleep and look again.
    Again,
}

/// What a [`Poll`] says.
#[verifier::ext_equal]
pub enum PollView {
    Ready(Seq<u8>),
    Failed(ScreenshotErrorView),
    Again,
}

impl View for Poll {
    type V = PollView;

    open spec fn view(&self) -> PollView {
        match self {
            Poll::Ready(bytes) => PollView::Ready(bytes@),
            Poll::Failed(e) => PollView::Failed(e.deep_view()),
            Poll::Again => PollView::Again,
        }
    }
}

/// One look at the file: what it holds (`None` where it cannot be read), and
/// whether the time is up.
#[verifier::ext_equal]
pub struct Look {
    pub file: Option<Seq<u8>>,
    pub expired: bool,
}

impl Look {
    /// The file is a fully-written PNG.
    pub open spec fn shows_png(self) -> bool {
        self.file matches Some(bytes) && is_whole_png(bytes)
    }
}

/// What to do after a look at the file at `path`. A fully-written PNG counts
/// even when the time is up; a partial file never does.
pub open spec fn poll_step(path: Seq<u8>, look: Look) -> PollView {
    if look.shows_png() {
        PollView::Ready(look.file->0)
    } else if look.expired {
        PollView::Failed(ScreenshotErrorView::Timeout(lossy(path)))
    } else {
        PollView::Again
    }
}

/// How a capture stands after a series of looks; nothing follows once it has
/// ended.
pub open spec fn poll_outcome(path: Seq<u8>, looks: Seq<Look>) -> PollView
    decreases looks.len(),
{
    if looks.len() == 0 {
        PollView::Again
    } else {
        match poll_step(path, looks[0]) {
            PollView::Again => poll_outcome(path, looks.drop_first()),
            ended => ended,
        }
    }
}

/// The look at `k` is the first that ends the capture.
pub open spec fn first_ending_look(looks: Seq<Look>, k: int) -> bool {
    &&& 0 <= k < looks.len()
    &&& looks[k].shows_png() || looks[k].expired
    &&& forall|i: int|
        0 <= i < k ==> !(#[trigger] looks[i]).shows_png() && !looks[i].expired
}

/// A capture ends with the first look that shows a fully-written PNG or comes
/// when the time is up: with that very file in the first case, else by a timeout
/// that names the path.
pub proof fn first_ending_look_decides(path: Seq<u8>, looks: Seq<Look>, k: int)
    requires
        first_ending_look(looks, k),
    ensures
        poll_outcome(path, looks) == poll_step(path, looks[k]),
        poll_outcome(path, looks) matches PollView::Ready(bytes) ==> is_whole_png(bytes)
            && looks[k].file == Some(bytes),
    decreases looks.len(),
{
    if k > 0 {
        let rest = looks.drop_first();
        assert(!looks[0].shows_png() && !looks[0].expired);
        assert forall|i: int| 0 <= i < k - 1 implies !(#[trigger] rest[i]).shows_png()
            && !rest[i].expired by {
            assert(!looks[i + 1].shows_png() && !looks[i + 1].expired);
        }
        first_ending_look_decides(path, rest, k - 1);
    }
}

/// A file that is still being written is never returned: a look at any beginning
/// of a PNG that stops before its end, the signature alone among them, makes the
/// capture look again, and once the PNG is all there the file is returned.
pub proof fn partial_file_is_waited_out(path: Seq<u8>, png: Seq<u8>, n: int, expired: bool)
    requires
        is_whole_png(png),
        0 <= n < png_end(png),
    ensures
        ({
            let part = Look { file: Some(png.take(n)), expired: false };
            let whole = Look { file: Some(png), expired };
            &&& poll_step(path, part) is Again
            &&& poll_outcome(path, seq![part, whole]) == PollView::Ready(png)
        }),
        poll_step(path, Look { file: Some(PNG_MAGIC@), expired: false }) is Again,
{
    partial_png_is_not_whole(png, 0);
    partial_png_is_not_whole(png, n);
    magic_alone_is_not_whole();
    let part = Look { file: Some(png.take(n)), expired: false };
    let whole = Look { file: Some(png), expired };
    first_ending_look_decides(path, seq![part, whole], 1);
}

/// The capture that writes to `path`, or why there is none.
pub open spec fn begun(target: Target, locked: bool, path: PathBytes) -> Result<
    Capture,
    ScreenshotError,
> {
    if locked {
        Err(ScreenshotError::Locked)
    } else {
        Ok(Capture { target, path })
    }
}

/// Begins the capture that writes to `path`. Errors if the session is locked.
pub fn capture(target: Target, locked: bool, path: PathBytes) -> (r: Result<
    Capture,
    ScreenshotError,
>)
    ensures
        r == begun(target, locked, path),
{
    if locked {
        return Err(ScreenshotError::Locked);
    }
    Ok(Capture { target, path })
}

/// What a [`ScreenshotAction`] says.
#[verifier::ext_equal]
pub struct ScreenshotActionView {
    pub target: Target,
    pub write_to_disk: bool,
    pub show_pointer: bool,
    pub path: Seq<char>,
}

impl View for ScreenshotAction {
    type V = ScreenshotActionView;

    open spec fn view(&self) -> ScreenshotActionView {
        ScreenshotActionView {
            target: self.target,
            write_to_disk: self.write_to_disk,
            show_pointer: self.show_pointer,
            path: self.path@,
        }
    }
}

/// What the compositor's answer means for a capture.
pub open spec fn acknowledgement(reply: ActionReply) -> Result<(), ScreenshotError> {
    match reply {
        ActionReply::Handled => Ok(()),
        ActionReply::Refused(m) => Err(ScreenshotError::Niri(m)),
        ActionReply::Failed(e) => Err(ScreenshotError::NiriConnect(e)),
    }
}

impl Capture {
    /// The action that a capture asks for.
    pub open spec fn asks_for(self) -> ScreenshotActionView {
        ScreenshotActionView {
            target: self.target,
            write_to_disk: true,
            show_pointer: false,
            path: lossy(self.path@),
        }
    }

    /// The action that makes the compositor write the file: to disk, without
    /// the mouse pointer, at the capture's path.
    pub fn action(&self) -> (r: ScreenshotAction)
        ensures
            r@ == self.asks_for(),
    {
        ScreenshotAction {
            target: self.target,
            write_to_disk: true,
            show_pointer: false,
            path: lossy_text(self.path.as_slice()),
        }
    }

    /// Goes by the compositor's answer: on where it took the action on, else
    /// the error.
    pub fn acknowledged(&self, reply: ActionReply) -> (r: Result<(), ScreenshotError>)
        ensures
            r == acknowledgement(reply),
    {
        match reply {
            ActionReply::Handled => Ok(()),
            ActionReply::Refused(m) => Err(ScreenshotError::Niri(m)),
            ActionReply::Failed(e) => Err(ScreenshotError::NiriConnect(e)),
        }
    }

    /// Goes by what the file holds (`None` where it cannot be read) and by
    /// whether the time is up. A fully-written PNG counts even then; a partial
    /// file never does.
    pub fn poll(&self, file: Option<Vec<u8>>, expired: bool) -> (r: Poll)
        ensures
            r@ == poll_step(
                self.path@,
                (Look {
                    file: match file {
                        Some(bytes) => Some(bytes@),
                        None => None,
                    },
                    expired,
                }),
            ),
    {
        if let Some(bytes) = file {
            if whole_png(bytes.as_slice()) {
                return Poll::Ready(bytes);
            }
        }
        if expired {
            Poll::Failed(ScreenshotError::Timeout(lossy_text(self.path.as_slice())))
        } else {
            Poll::Again
        }
    }
}

/// The window is captured exactly when the text is the word `window`, to the
/// letter; anything else, and nothing at all, means the screen.
pub proof fn window_is_asked_for_by_name(text: Seq<char>)
    ensures
        target_named(Some(text)) is Window <==> text.len() == 6 && text[0] == 'w' && text[1] == 'i'
            && text[2] == 'n' && text[3] == 'd' && text[4] == 'o' && text[5] == 'w',
        target_named(None) is Screen,
{
    reveal_strlit("window");
    if text.len() == 6 && text[0] == 'w' && text[1] == 'i' && text[2] == 'n' && text[3] == 'd'
        && text[4] == 'o' && text[5] == 'w' {
        assert(text =~= "window"@);
    }
}

/// Every failure is told by words of its own, followed by all of the detail that
/// came with it.
pub proof fn screenshot_failures_tell_their_detail(detail: Seq<char>)
    ensures
        ScreenshotErrorView::Locked.message() == "the session is locked"@,
        ScreenshotErrorView::NiriConnect(detail).message() == "connecting to niri: "@ + detail,
        ScreenshotErrorView::Niri(detail).message() == "niri screenshot failed: "@ + detail,
        ScreenshotErrorView::Timeout(detail).message() == "screenshot file never materialized at "@
            + detail,
{
}

/// The session is asked for by its id, among the fixed words of the query.
pub proof fn lock_query_names_the_session(id: Seq<char>, other: Seq<char>)
    ensures
        lock_args(id).len() == 5,
        lock_args(id)[0] == "show-session"@,
        lock_args(id)[1] == id,
        lock_args(id)[2] == "-p"@,
        lock_args(id)[3] == "LockedHint"@,
        lock_args(id)[4] == "--value"@,
        id != other ==> lock_args(id) != lock_args(other),
{
}

/// The session counts as locked exactly when `loginctl` succeeded and what it
/// wrote is the word `yes` with nothing but white space around it.
pub proof fn locked_means_that_loginctl_said_yes(success: bool, stdout: Seq<u8>)
    ensures
        says_locked(success, stdout) ==> success,
        says_locked(success, stdout) ==> exists|lo: int|
            0 <= lo <= lossy(stdout).len() - 3 && #[trigger] lossy(stdout).subrange(lo, lo + 3)
                == seq!['y', 'e', 's'] && (forall|i: int|
                (0 <= i < lo || lo + 3 <= i < lossy(stdout).len()) ==> is_white_space(
                    #[trigger] lossy(stdout)[i],
                )),
        forall|lo: int|
            success && 0 <= lo <= lossy(stdout).len() - 3 && #[trigger] lossy(stdout).subrange(
                lo,
                lo + 3,
            ) == seq!['y', 'e', 's'] && (forall|i: int|
                (0 <= i < lo || lo + 3 <= i < lossy(stdout).len()) ==> is_white_space(
                    #[trigger] lossy(stdout)[i],
                )) ==> says_locked(success, stdout),
{
    let s = lossy(stdout);
    let yes = seq!['y', 'e', 's'];
    reveal_strlit("yes");
    assert("yes"@ =~= yes);
    if says_locked(success, stdout) {
        let (lo, hi) = trimming_takes_white_space_only(s);
        assert(hi == lo + 3);
        assert(s.subrange(lo, lo + 3) == yes);
    }
    assert forall|lo: int|
        success && 0 <= lo <= s.len() - 3 && #[trigger] s.subrange(lo, lo + 3) == yes && (forall|
            i: int,
        |
            (0 <= i < lo || lo + 3 <= i < s.len()) ==> is_white_space(#[trigger] s[i])) implies
        says_locked(success, stdout) by {
        let a = s.take(lo);
        let b = s.skip(lo + 3);
        assert(s =~= a + yes + b);
        assert(yes[0] == 'y' && yes.last() == 's');
        trimming_undoes_padding(a, yes, b);
    }
}

/// A locked session is never captured, and an unlocked one always is, as asked
/// for and where asked for.
pub proof fn capture_goes_by_the_lock(target: Target, path: PathBytes)
    ensures
        begun(target, true, path) == Err::<Capture, _>(ScreenshotError::Locked),
        begun(target, false, path) matches Ok(c) && c.target == target && c.path == path,
{
}

/// The compositor is asked for the target of the capture, on disk, without the
/// pointer, at the path that the capture then looks at.
pub proof fn action_writes_what_is_looked_for(c: Capture)
    ensures
        c.asks_for().target == c.target,
        c.asks_for().write_to_disk,
        !c.asks_for().show_pointer,
        c.asks_for().path == lossy(c.path@),
{
}

/// The capture goes on exactly when the compositor took the action on, and else
/// fails with what the compositor or the socket said.
pub proof fn refusal_is_passed_on(reply: ActionReply, text: String)
    ensures
        acknowledgement(reply) is Ok <==> reply is Handled,
        acknowledgement(ActionReply::Refused(text)) == Err::<(), _>(ScreenshotError::Niri(text)),
        acknowledgement(ActionReply::Failed(text)) == Err::<(), _>(
            ScreenshotError::NiriConnect(text),
        ),
{
}

/// A look that shows a whole PNG ends the capture with that very file, in time
/// or not; any other look ends it only when the time is up, by a timeout that
/// names the path.
pub proof fn look_decides(path: Seq<u8>, bytes: Seq<u8>, expired: bool)
    ensures
        is_whole_png(bytes) ==> poll_step(path, Look { file: Some(bytes), expired })
            == PollView::Ready(bytes),
        !is_whole_png(bytes) ==> poll_step(path, Look { file: Some(bytes), expired }) == poll_step(
            path,
            Look { file: None, expired },
        ),
        poll_step(path, Look { file: None, expired: true }) == PollView::Failed(
            ScreenshotErrorView::Timeout(lossy(path)),
        ),
        poll_step(path, Look { file: None, expired: false }) is Again,
{
}

/// The path of a capture is the directory, a slash, and the capture's id between
/// the fixed words.
pub proof fn capture_path_is_spelled_out(dir: Seq<u8>, id: Seq<char>)
    requires
        dir.len() > 0,
        dir.last() != 0x2f,
    ensures
        shot_path_of(dir, id) == dir + seq![0x2fu8] + vstd::utf8::encode_utf8("hermes-dms-shot-"@)
            + vstd::utf8::encode_utf8(id) + vstd::utf8::encode_utf8(".png"@),
        shot_path_of(dir.push(0x2f), id) == shot_path_of(dir, id),
{
    encode_concat("hermes-dms-shot-"@ + id, ".png"@);
    encode_concat("hermes-dms-shot-"@, id);
    assert(shot_path_of(dir, id) =~= dir + seq![0x2fu8] + vstd::utf8::encode_utf8(
        "hermes-dms-shot-"@,
    ) + vstd::utf8::encode_utf8(id) + vstd::utf8::encode_utf8(".png"@));
    assert(shot_path_of(dir.push(0x2f), id) =~= shot_path_of(dir, id));
}

/// The runtime directory is taken whenever it begins with a slash, else the
/// directory for temporary files whenever that does, else `/tmp`.
pub proof fn capture_directory_is_the_first_absolute(rest: Seq<u8>, other: Seq<u8>, temp: Seq<u8>)
    requires
        other.len() == 0 || other[0] != 0x2f,
    ensures
        capture_dir_of(Some(seq![0x2fu8] + rest), temp) == seq![0x2fu8] + rest,
        capture_dir_of(Some(other), temp) == capture_dir_of(None, temp),
        capture_dir_of(None, seq![0x2fu8] + rest) == seq![0x2fu8] + rest,
        capture_dir_of(None, other) == seq![0x2fu8, 0x74u8, 0x6du8, 0x70u8],
{
    reveal_strlit("/tmp");
    vstd::utf8::is_ascii_chars_encode_utf8(FALLBACK_CAPTURE_DIR@);
    assert(FALLBACK_CAPTURE_DIR.spec_bytes() =~= seq![0x2fu8, 0x74u8, 0x6du8, 0x70u8]);
}

/// A lock that cannot be determined counts as none: neither where `loginctl`
/// could not be asked, nor where it failed; else its answer decides.
pub proof fn unknown_lock_is_none(o: &CommandOutput)
    ensures
        !counts_as_locked(None),
        !o.success ==> !counts_as_locked(Some(o)),
        o.success ==> (counts_as_locked(Some(o)) <==> trimmed(lossy(o.stdout@)) == seq![
            'y',
            'e',
            's',
        ]),
{
    reveal_strlit("yes");
    assert("yes"@ =~= seq!['y', 'e', 's']);
}

} // verus!
