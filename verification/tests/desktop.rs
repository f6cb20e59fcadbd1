use hermes_dms::desktop::notify::{
    build_call, notify_launcher, NotifyCall, Urgency, APP_NAME, NOTIFY_MAX_LEN,
};
use hermes_dms::desktop::png::{whole_png, PNG_MAGIC};
use hermes_dms::desktop::screenshot::{
    capture, capture_dir, lock_query, session_locked, shot_path, temp_path, ActionReply, Capture,
    CommandOutput, Poll, ScreenshotError, Target,
};

#[test]
fn urgency_mapping() {
    assert_eq!(Urgency::from_opt(Some("low")), Urgency::Low);
    assert_eq!(Urgency::from_opt(Some("LOW")), Urgency::Low);
    assert_eq!(Urgency::from_opt(Some("critical")), Urgency::Critical);
    assert_eq!(Urgency::from_opt(Some("normal")), Urgency::Normal);
    assert_eq!(Urgency::from_opt(None), Urgency::Normal);
    assert_eq!(Urgency::from_opt(Some("bogus")), Urgency::Normal);
}

#[test]
fn urgency_hints() {
    assert_eq!(Urgency::Low.hint(), 0);
    assert_eq!(Urgency::Normal.hint(), 1);
    assert_eq!(Urgency::Critical.hint(), 2);
}

/// Case folding stops at ASCII: a dotless or accented letter is another letter.
#[test]
fn urgency_folds_ascii_only() {
    assert_eq!(Urgency::from_opt(Some("CriTiCaL")), Urgency::Critical);
    assert_eq!(Urgency::from_opt(Some("CRITİCAL")), Urgency::Normal);
    assert_eq!(Urgency::from_opt(Some(" low")), Urgency::Normal);
    assert_eq!(Urgency::from_opt(Some("")), Urgency::Normal);
}

#[test]
fn notification_call_fields() {
    let call = build_call("t", "b", Urgency::Critical, Some("dialog-information"));
    assert_eq!(
        call,
        NotifyCall {
            app_name: "Roci".into(),
            replaces_id: 0,
            app_icon: "dialog-information".into(),
            summary: "t".into(),
            body: "b".into(),
            urgency: 2,
            expire_timeout: -1,
        }
    );
    assert_eq!(build_call("t", "b", Urgency::Low, None).app_icon, "");
}

#[test]
fn launcher_notification_is_cut_by_characters() {
    assert_eq!(notify_launcher(false, "hi"), None);
    assert_eq!(notify_launcher(true, ""), None);

    let short = notify_launcher(true, "hi").unwrap();
    assert_eq!(short.summary, APP_NAME);
    assert_eq!(short.body, "hi");
    assert_eq!(short.urgency, 1);

    let exact: String = "é".repeat(NOTIFY_MAX_LEN);
    assert_eq!(notify_launcher(true, &exact).unwrap().body, exact);

    let long: String = "é".repeat(NOTIFY_MAX_LEN + 1);
    let body = notify_launcher(true, &long).unwrap().body;
    assert_eq!(body.chars().count(), 280);
    assert!(long.starts_with(&body));
}

#[test]
fn target_from_opt() {
    assert_eq!(Target::from_opt(Some("window")), Target::Window);
    assert_eq!(Target::from_opt(Some("full")), Target::Screen);
    assert_eq!(Target::from_opt(Some("screen")), Target::Screen);
    assert_eq!(Target::from_opt(None), Target::Screen);
}

#[test]
fn temp_path_is_absolute_png() {
    let dir = capture_dir(Some(b"/run/user/1000".to_vec()), b"/tmp".to_vec());
    let p = String::from_utf8(temp_path(&dir)).unwrap();
    assert!(p.starts_with("/run/user/1000/hermes-dms-shot-"));
    assert!(p.ends_with(".png"));
}

#[test]
fn temp_paths_are_unique() {
    assert_ne!(temp_path(b"/tmp"), temp_path(b"/tmp"));
}

#[test]
fn shot_path_joins_with_one_slash() {
    assert_eq!(shot_path(b"/tmp", "x"), b"/tmp/hermes-dms-shot-x.png");
    assert_eq!(shot_path(b"/tmp/", "x"), b"/tmp/hermes-dms-shot-x.png");
    assert_eq!(shot_path(b"", "x"), b"hermes-dms-shot-x.png");
    assert_ne!(shot_path(b"/tmp", "x"), shot_path(b"/tmp", "y"));
}

fn answered(success: bool, stdout: &[u8]) -> CommandOutput {
    CommandOutput { success, stdout: stdout.to_vec() }
}

#[test]
fn lock_is_taken_from_loginctl() {
    assert_eq!(
        lock_query("c2"),
        vec!["show-session", "c2", "-p", "LockedHint", "--value"]
    );
    assert!(session_locked(Some(&answered(true, b"yes\n"))));
    assert!(session_locked(Some(&answered(true, b"\t yes \r\n"))));
    assert!(session_locked(Some(&answered(true, "\u{a0}yes\u{2003}".as_bytes()))));
    assert!(!session_locked(Some(&answered(true, b"no\n"))));
    assert!(!session_locked(Some(&answered(true, b""))));
    assert!(!session_locked(Some(&answered(true, b"yes\xff"))));
    assert!(!session_locked(Some(&answered(false, b"yes\n"))));
    assert!(!session_locked(None));
}

#[test]
fn locked_session_is_not_captured() {
    assert_eq!(
        capture(Target::Screen, true, b"/tmp/x.png".to_vec()),
        Err(ScreenshotError::Locked)
    );
    let c = capture(Target::Window, false, b"/tmp/x.png".to_vec()).unwrap();
    assert_eq!(c, Capture { target: Target::Window, path: b"/tmp/x.png".to_vec() });
    let action = c.action();
    assert_eq!(action.target, Target::Window);
    assert!(action.write_to_disk);
    assert!(!action.show_pointer);
    assert_eq!(action.path, "/tmp/x.png");
}

#[test]
fn ill_formed_path_is_shown_with_replacement_characters() {
    let c = capture(Target::Screen, false, b"/tmp/\xff.png".to_vec()).unwrap();
    assert_eq!(c.action().path, "/tmp/\u{fffd}.png");
}

#[test]
fn compositor_answer_decides() {
    let c = capture(Target::Screen, false, b"/tmp/x.png".to_vec()).unwrap();
    assert_eq!(c.acknowledged(ActionReply::Handled), Ok(()));
    assert_eq!(
        c.acknowledged(ActionReply::Refused("no output".into())),
        Err(ScreenshotError::Niri("no output".into()))
    );
    assert_eq!(
        c.acknowledged(ActionReply::Failed("broken pipe".into())),
        Err(ScreenshotError::NiriConnect("broken pipe".into()))
    );
}

/// One chunk of a PNG file, with a checksum that nobody looks at.
fn chunk(kind: &[u8; 4], data: &[u8]) -> Vec<u8> {
    let len = (data.len() as u32).to_be_bytes();
    [&len[..], &kind[..], data, &[0xae, 0x42, 0x60, 0x82]].concat()
}

fn png() -> Vec<u8> {
    [
        PNG_MAGIC.to_vec(),
        chunk(b"IHDR", &[0; 13]),
        chunk(b"IDAT", &[7; 300]),
        chunk(b"IEND", &[]),
    ]
    .concat()
}

#[test]
fn polling_waits_for_a_whole_png() {
    let c = capture(Target::Screen, false, b"/tmp/x.png".to_vec()).unwrap();
    let png = png();
    assert_eq!(c.poll(None, false), Poll::Again);
    assert_eq!(c.poll(Some(b"not a png file".to_vec()), false), Poll::Again);
    assert_eq!(c.poll(Some(PNG_MAGIC.to_vec()), false), Poll::Again);
    for n in 0..png.len() {
        assert_eq!(c.poll(Some(png[..n].to_vec()), false), Poll::Again, "{n} bytes");
    }
    assert_eq!(c.poll(Some(png.clone()), false), Poll::Ready(png.clone()));
    assert_eq!(c.poll(Some(png.clone()), true), Poll::Ready(png.clone()));
    let timeout = Poll::Failed(ScreenshotError::Timeout("/tmp/x.png".into()));
    assert_eq!(c.poll(None, true), timeout);
    assert_eq!(c.poll(Some(png[..png.len() - 1].to_vec()), true), timeout);
}

#[test]
fn whole_png_reaches_its_last_chunk() {
    assert!(whole_png(&png()));
    assert!(whole_png(&[PNG_MAGIC.to_vec(), chunk(b"IEND", &[])].concat()));
    // What follows the last chunk makes no difference.
    let more = [png(), vec![0]].concat();
    assert!(whole_png(&more));
    let c = capture(Target::Screen, false, b"/tmp/x.png".to_vec()).unwrap();
    assert_eq!(c.poll(Some(more.clone()), false), Poll::Ready(more));
    // Another signature, a chunk too long.
    assert!(!whole_png(&png()[1..]));
    let mut long = png();
    long[8] = 0xff;
    assert!(!whole_png(&long));
    // The closing chunk's bytes inside the data of another do not count.
    let inside = chunk(b"IDAT", &chunk(b"IEND", &[]));
    assert!(!whole_png(&[PNG_MAGIC.to_vec(), inside].concat()));
}

#[test]
fn captures_go_to_an_absolute_directory() {
    let dir = |runtime: Option<&[u8]>| capture_dir(runtime.map(<[u8]>::to_vec), b"/tmp".to_vec());
    assert_eq!(dir(Some(b"/run/user/7")), b"/run/user/7");
    assert_eq!(dir(Some(b"")), b"/tmp");
    assert_eq!(dir(Some(b"run")), b"/tmp");
    assert_eq!(dir(None), b"/tmp");
    assert_eq!(capture_dir(None, b"/var/tmp".to_vec()), b"/var/tmp");
    assert_eq!(capture_dir(None, b"tmp".to_vec()), b"/tmp");
    assert_eq!(capture_dir(Some(b"run".to_vec()), b"".to_vec()), b"/tmp");
}

#[test]
fn screenshot_errors_in_words() {
    assert_eq!(ScreenshotError::Locked.message(), "the session is locked");
    assert_eq!(
        ScreenshotError::NiriConnect("e".into()).message(),
        "connecting to niri: e"
    );
    assert_eq!(
        ScreenshotError::Niri("m".into()).message(),
        "niri screenshot failed: m"
    );
    assert_eq!(
        ScreenshotError::Timeout("/p".into()).message(),
        "screenshot file never materialized at /p"
    );
}
