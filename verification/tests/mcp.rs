use hermes_dms::config::ListenAddr;
use hermes_dms::desktop::screenshot::{ScreenshotError, Target};
use hermes_dms::ipc::DaemonMessage;
use hermes_dms::mcp::server::{allowed_hosts, guard, require_bearer, Verdict};
use hermes_dms::mcp::tools::{LaunchRequest, NotifyRequest, ScreenshotRequest, ToolReply};
use hermes_dms::mcp::DesktopServer;

/// The Bearer guard rejects missing/incorrect tokens and lets the correct one
/// pass.
#[test]
fn bearer_middleware_gates_requests() {
    assert!(!require_bearer("secret", None));
    assert!(!require_bearer("secret", Some(b"Bearer nope")));
    assert!(require_bearer("secret", Some(b"Bearer secret")));

    let refused = Verdict::Refuse { status: 401, body: "unauthorized".into() };
    assert_eq!(guard(Some("secret"), None), refused);
    assert_eq!(guard(Some("secret"), Some(b"Bearer nope")), refused);
    assert_eq!(guard(Some("secret"), Some(b"Bearer secret")), Verdict::Pass);
}

#[test]
fn bearer_must_match_to_the_byte() {
    let cases: Vec<&[u8]> = vec![
        b"",
        b"secret",
        b"Bearer ",
        b"Bearer",
        b"bearer secret",
        b"Bearer  secret",
        b"Bearer secret ",
        b"Bearer secre",
        b"Bearer secrets",
        b"Basic secret",
    ];
    for value in cases {
        assert!(!require_bearer("secret", Some(value)));
    }
    // Header values with other than visible ASCII never count as text.
    assert!(!require_bearer("é", Some("Bearer é".as_bytes())));
    assert!(!require_bearer("a\x7f", Some(b"Bearer a\x7f")));
    assert!(require_bearer("a\tb", Some(b"Bearer a\tb")));
    assert!(require_bearer("", Some(b"Bearer ")));
}

#[test]
fn server_without_a_token_is_open() {
    assert_eq!(guard(None, None), Verdict::Pass);
    assert_eq!(guard(None, Some(b"Bearer x")), Verdict::Pass);
}

#[test]
fn hosts_come_from_the_bind_address() {
    let addr = ListenAddr { addr: "10.20.0.3:9721".into(), ip: "10.20.0.3".into() };
    assert_eq!(
        allowed_hosts(&addr),
        vec!["10.20.0.3:9721", "10.20.0.3"]
    );
}

fn notify_request() -> NotifyRequest {
    NotifyRequest {
        title: "t".into(),
        body: "b".into(),
        urgency: None,
        icon: None,
    }
}

#[test]
fn notify_without_dbus_errors_cleanly() {
    let s = DesktopServer::new(false);
    let res = s.desktop_notify(&notify_request());
    assert!(res.is_err());
    assert_eq!(res.unwrap_err().message, "D-Bus session bus unavailable");
}

#[test]
fn notify_shows_and_toasts() {
    let s = DesktopServer::new(true);
    let req = NotifyRequest {
        urgency: Some("Critical".into()),
        icon: Some("dialog-warning".into()),
        ..notify_request()
    };
    let call = s.desktop_notify(&req).unwrap();
    assert_eq!((call.summary.as_str(), call.body.as_str()), ("t", "b"));
    assert_eq!(call.urgency, 2);
    assert_eq!(call.app_icon, "dialog-warning");

    let (reply, toast) = DesktopServer::notify_done(req.clone(), Ok(42)).unwrap();
    assert_eq!(reply, ToolReply::Text("Notification sent (id: 42)".into()));
    assert_eq!(
        toast,
        DaemonMessage::Toast {
            title: "t".into(),
            body: "b".into(),
            icon: Some("dialog-warning".into())
        }
    );
    let err = DesktopServer::notify_done(req, Err("no reply".into())).unwrap_err();
    assert_eq!(err.message, "notification failed: no reply");
}

#[test]
fn launch_tool_spawns_detached_process() {
    let launch = DesktopServer::desktop_launch_app(LaunchRequest {
        command: "/bin/true".into(),
        args: None,
    });
    assert_eq!(launch.command, "/bin/true");
    assert!(launch.args.is_empty());
    let res = DesktopServer::launch_done(&launch.command, Ok(4711));
    assert!(res.is_ok());
    assert_eq!(
        res.unwrap(),
        ToolReply::Text("Launched /bin/true (pid: 4711)".into())
    );
}

#[test]
fn launch_arguments_are_not_interpreted() {
    let args = vec!["$HOME; rm".to_string(), "a b".to_string(), String::new()];
    let launch = DesktopServer::desktop_launch_app(LaunchRequest {
        command: "echo $X".into(),
        args: Some(args.clone()),
    });
    assert_eq!(launch.command, "echo $X");
    assert_eq!(launch.args, args);
    let err = DesktopServer::launch_done("x", Err("not found".into())).unwrap_err();
    assert_eq!(err.message, "launch failed: not found");
}

#[test]
fn screenshot_comes_in_base64() {
    let window = ScreenshotRequest { target: Some("window".into()) };
    assert_eq!(DesktopServer::desktop_screenshot(&window), Target::Window);
    let none = ScreenshotRequest { target: None };
    assert_eq!(DesktopServer::desktop_screenshot(&none), Target::Screen);

    let data = |bytes: &[u8]| match DesktopServer::screenshot_done(Ok(Ok(bytes.to_vec()))) {
        Ok(ToolReply::Image { data, mime_type }) => {
            assert_eq!(mime_type, "image/png");
            data
        }
        other => panic!("unexpected {other:?}"),
    };
    assert_eq!(data(b""), "");
    assert_eq!(data(b"\x89"), "iQ==");
    assert_eq!(data(b"\x89P"), "iVA=");
    assert_eq!(data(b"\x89PN"), "iVBO");
    assert_eq!(data(b"\xfb\xff\xfe\x00"), "+//+AA==");
    assert_eq!(data(b"hello world~"), "aGVsbG8gd29ybGR+");
}

#[test]
fn screenshot_failures_in_words() {
    let locked = DesktopServer::screenshot_done(Ok(Err(ScreenshotError::Locked)));
    assert_eq!(locked.unwrap_err().message, "the session is locked");
    let join = DesktopServer::screenshot_done(Err("panicked".into()));
    assert_eq!(join.unwrap_err().message, "join error: panicked");
}
