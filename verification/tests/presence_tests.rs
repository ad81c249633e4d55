use jimmy::numbers::{parse_i32, parse_u64, IntErrorKind};
use jimmy::presence::{FrameResult, Presence, PresenceSettings, PresenceTracker, PresenceUpdate, SettingsError};
use jimmy::wake_ui::UiState;

const SEC: u64 = 1_000_000_000;

#[test]
fn integers_parse_like_std() {
    assert_eq!(parse_u64("1000"), Ok(1000));
    assert_eq!(parse_u64("+5"), Ok(5));
    assert_eq!(parse_u64("18446744073709551615"), Ok(u64::MAX));
    assert_eq!(parse_u64("18446744073709551616"), Err(IntErrorKind::PosOverflow));
    assert_eq!(parse_u64("99999999999999999999x"), Err(IntErrorKind::PosOverflow));
    assert_eq!(parse_u64("-5"), Err(IntErrorKind::InvalidDigit));
    assert_eq!(parse_u64(""), Err(IntErrorKind::Empty));
    assert_eq!(parse_u64("+"), Err(IntErrorKind::InvalidDigit));
    assert_eq!(parse_u64(" 1"), Err(IntErrorKind::InvalidDigit));
    assert_eq!(parse_i32("-2147483648"), Ok(i32::MIN));
    assert_eq!(parse_i32("2147483647"), Ok(i32::MAX));
    assert_eq!(parse_i32("-2147483649"), Err(IntErrorKind::NegOverflow));
    assert_eq!(parse_i32("2147483648"), Err(IntErrorKind::PosOverflow));
    assert_eq!(parse_i32("-"), Err(IntErrorKind::InvalidDigit));
    assert_eq!(parse_i32("1é"), Err(IntErrorKind::InvalidDigit));
    for s in ["0", "-0", "+7", "42", "-42", "x", "", "007"] {
        assert_eq!(parse_i32(s).ok(), s.parse::<i32>().ok(), "{}", s);
        assert_eq!(parse_u64(s).ok(), s.parse::<u64>().ok(), "{}", s);
    }
    assert_eq!(IntErrorKind::InvalidDigit.message(), "invalid digit found in string");
    assert_eq!(IntErrorKind::Empty.message(), "cannot parse integer from empty string");
}

#[test]
fn presence_settings_defaults() {
    let s = PresenceSettings::from_env(None, None, None, None, None).unwrap();
    assert_eq!(s.bind, "127.0.0.1:8791");
    assert_eq!(s.camera_index, 0);
    assert_eq!(s.interval_ms, 1000);
    assert_eq!(s.away_after_secs, 30);
    assert_eq!(s.cascade_path, "/usr/share/opencv4/haarcascades/haarcascade_frontalface_default.xml");
}

#[test]
fn presence_interval_is_at_least_250_ms() {
    let s = PresenceSettings::from_env(None, Some("2".into()), Some("100".into()), Some("5".into()), None).unwrap();
    assert_eq!(s.interval_ms, 250);
    assert_eq!(s.camera_index, 2);
    assert_eq!(s.away_after_secs, 5);
}

#[test]
fn presence_settings_errors_name_the_variable() {
    let e = PresenceSettings::from_env(None, Some("cam".into()), Some("x".into()), None, None).unwrap_err();
    assert_eq!(e, SettingsError::CameraDevice(IntErrorKind::InvalidDigit));
    assert_eq!(e.message(), "invalid JIMMY_CAMERA_DEVICE");
    let e = PresenceSettings::from_env(None, None, Some("-1".into()), None, None).unwrap_err();
    assert_eq!(e.message(), "invalid JIMMY_PRESENCE_INTERVAL_MS");
    let e = PresenceSettings::from_env(None, None, None, Some("".into()), None).unwrap_err();
    assert_eq!(e, SettingsError::AwayAfter(IntErrorKind::Empty));
    assert_eq!(e.message(), "invalid JIMMY_PRESENCE_AWAY_AFTER_SECONDS");
    assert_eq!(e.cause(), IntErrorKind::Empty);
}

#[test]
fn tracker_needs_two_faces_and_a_full_absence() {
    let mut t = PresenceTracker::new(30);
    // Nobody seen yet: away from the first frame on.
    assert_eq!(t.observe(FrameResult::Faces(0), 0), Some(PresenceUpdate::Away));
    assert_eq!(t.observe(FrameResult::Faces(1), SEC), None);
    assert_eq!(t.observe(FrameResult::Faces(2), 2 * SEC), Some(PresenceUpdate::Present));
    // One missed frame does not mark the person away.
    assert_eq!(t.observe(FrameResult::Unreadable, 3 * SEC), None);
    assert_eq!(t.consecutive_present, 0);
    assert_eq!(t.observe(FrameResult::Empty, 31 * SEC), None);
    assert_eq!(t.observe(FrameResult::DetectionFailed, 32 * SEC), Some(PresenceUpdate::Away));
    assert_eq!(t.observe(FrameResult::ConversionFailed, 33 * SEC), Some(PresenceUpdate::Away));
}

#[test]
fn presence_states_are_described() {
    let p = Presence::starting();
    assert_eq!((p.present(), p.state().as_str(), p.detail().as_str()), (false, "unknown", "starting local camera detector"));
    let p = Presence::present_now();
    assert_eq!((p.present(), p.state().as_str(), p.detail().as_str()), (true, "present", "person detected locally"));
    let p = Presence::away_now();
    assert_eq!((p.present(), p.state().as_str()), (false, "away"));
    let p = Presence::cascade_failed("missing file");
    assert_eq!((p.state().as_str(), p.detail().as_str()), ("camera_unavailable", "could not load face cascade: missing file"));
    assert_eq!(Presence::camera_failed(Some("busy")).detail(), "camera could not be opened: busy");
    assert_eq!(Presence::camera_failed(None).detail(), "camera could not be opened");
    let (present, state, _) = Presence::published(PresenceUpdate::Present).into_parts();
    assert!(present && state == "present");
    let (present, state, detail) = Presence::published(PresenceUpdate::Away).into_parts();
    assert!(!present && state == "away");
    assert_eq!(detail, "no face detected for the configured absence period");
}

#[test]
fn published_presence_is_present_only_in_state_present() {
    let all = vec![
        Presence::starting(),
        Presence::camera_unavailable("x".into()),
        Presence::cascade_failed("e"),
        Presence::camera_failed(None),
        Presence::present_now(),
        Presence::away_now(),
        Presence::published(PresenceUpdate::Present),
        Presence::published(PresenceUpdate::Away),
    ];
    for p in all {
        assert_eq!(p.present(), p.state() == "present");
        assert!(["present", "away", "unknown", "camera_unavailable"].contains(&p.state().as_str()));
    }
}

#[test]
fn wake_shows_for_six_seconds() {
    let mut ui = UiState::new();
    let r = ui.snapshot(0);
    assert!(!r.active && !r.listening && r.phrase.is_none());
    let w = ui.wake(None, 10 * SEC);
    assert!(w.active);
    assert_eq!(w.phrase.as_deref(), Some("Hey Jimmy"));
    let r = ui.snapshot(16 * SEC - 1);
    assert!(r.active);
    assert_eq!(r.phrase.as_deref(), Some("Hey Jimmy"));
    assert!(!ui.snapshot(16 * SEC).active);
    let w = ui.wake(Some("Jimmy!".into()), 20 * SEC);
    assert_eq!(w.phrase.as_deref(), Some("Jimmy!"));
    ui.start_listening();
    assert!(ui.snapshot(40 * SEC).listening);
}
