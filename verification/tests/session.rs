use hermes_dms::hermes::session::{
    format_desktop_session_id, new_desktop_session_id, seconds_or_zero, DESKTOP_SESSION_PREFIX,
};

#[test]
fn generated_id_has_prefix_and_shape() {
    let id = new_desktop_session_id();
    assert!(id.starts_with(DESKTOP_SESSION_PREFIX));
    let rest = id.strip_prefix(DESKTOP_SESSION_PREFIX).unwrap();
    let (ts, rand) = rest.split_once('_').expect("ts_rand");
    assert!(ts.chars().all(|c| c.is_ascii_digit()));
    assert_eq!(rand.len(), 8);
    assert!(rand.chars().all(|c| c.is_ascii_hexdigit()));
}

#[test]
fn ids_are_unique() {
    let a = new_desktop_session_id();
    let b = new_desktop_session_id();
    assert_ne!(a, b);
}

#[test]
fn id_is_made_of_seconds_and_four_bytes() {
    assert_eq!(
        format_desktop_session_id(1_700_000_000, &[0x0a, 0x1b, 0x2c, 0xff, 0x99]),
        "desktop_1700000000_0a1b2cff"
    );
    assert_eq!(format_desktop_session_id(0, &[0, 0, 0, 0]), "desktop_0_00000000");
    assert_ne!(
        format_desktop_session_id(1, &[0, 0, 0, 1]),
        format_desktop_session_id(1, &[0, 0, 1, 0])
    );
}

/// The clock that minted ids carry is the system's.
#[test]
fn minted_id_carries_the_time() {
    let now = || {
        std::time::SystemTime::now()
            .duration_since(std::time::UNIX_EPOCH)
            .unwrap()
            .as_secs()
    };
    let before = now();
    let id = new_desktop_session_id();
    let after = now();
    let secs: u64 = id.split('_').nth(1).unwrap().parse().unwrap();
    assert!(before <= secs && secs <= after);
}

/// A clock that is set before the start of Unix time counts as standing there.
#[test]
fn early_clock_counts_as_zero() {
    assert_eq!(seconds_or_zero(Some(17)), 17);
    assert_eq!(seconds_or_zero(None), 0);
}
