//! The local presence detector: its settings, and the hysteresis that turns
//! face detections, frame by frame, into the published presence state.
//!
//! Presence is not authentication: the detector only tells whether a face
//! appears in front of the camera.

use crate::numbers::{parse_i32, parse_signed, parse_u64, parse_unsigned, IntErrorKind};
use crate::text::join;
use vstd::prelude::*;

verus! {

broadcast use vstd::string::group_string_axioms;

/// Shortest pause between two frames, in milliseconds.
pub const MIN_INTERVAL_MS: u64 = 250;

/// Nanoseconds per second.
pub const NANOS_PER_SEC: i128 = 1_000_000_000;

/// Settings of the presence detector.
#[derive(Debug, Clone)]
pub struct PresenceSettings {
    pub bind: String,
    pub camera_index: i32,
    pub interval_ms: u64,
    pub away_after_secs: u64,
    pub cascade_path: String,
}

/// Why the presence settings are refused.
#[derive(Debug, Clone, Copy, PartialEq, Eq)]
pub enum SettingsError {
    CameraDevice(IntErrorKind),
    Interval(IntErrorKind),
    AwayAfter(IntErrorKind),
}

impl SettingsError {
    pub open spec fn message_text(self) -> Seq<char> {
        match self {
            SettingsError::CameraDevice(_) => "invalid JIMMY_CAMERA_DEVICE"@,
            SettingsError::Interval(_) => "invalid JIMMY_PRESENCE_INTERVAL_MS"@,
            SettingsError::AwayAfter(_) => "invalid JIMMY_PRESENCE_AWAY_AFTER_SECONDS"@,
        }
    }

    /// Which setting is invalid.
    pub fn message(&self) -> (res: String)
        ensures
            res@ == self.message_text(),
    {
        match self {
            SettingsError::CameraDevice(_) => String::from_str("invalid JIMMY_CAMERA_DEVICE"),
            SettingsError::Interval(_) => String::from_str("invalid JIMMY_PRESENCE_INTERVAL_MS"),
            SettingsError::AwayAfter(_) => String::from_str("invalid JIMMY_PRESENCE_AWAY_AFTER_SECONDS"),
        }
    }

    /// Why the value was not a number.
    pub fn cause(&self) -> (res: IntErrorKind)
        ensures
            res == match *self {
                SettingsError::CameraDevice(k) => k,
                SettingsError::Interval(k) => k,
                SettingsError::AwayAfter(k) => k,
            },
    {
        match self {
            SettingsError::CameraDevice(k) => *k,
            SettingsError::Interval(k) => *k,
            SettingsError::AwayAfter(k) => *k,
        }
    }
}

pub open spec fn or_default(v: Option<String>, default: Seq<char>) -> Seq<char> {
    match v {
        Some(s) => s@,
        None => default,
    }
}

fn value_or(v: Option<String>, default: &str) -> (res: String)
    ensures
        res@ == or_default(v, default@),
{
    match v {
        Some(s) => s,
        None => String::from_str(default),
    }
}

impl PresenceSettings {
    /// The settings from the environment's values (`None` for a variable
    /// that is unset or not Unicode), with the documented defaults:
    /// listen on 127.0.0.1:8791, camera 0, a frame every 1000 ms but never
    /// more often than every 250 ms, away after 30 seconds without a face,
    /// and OpenCV's frontal-face Haar cascade. The numbers are checked in
    /// the order camera, interval, absence.
    pub fn from_env(
        bind: Option<String>,
        camera_device: Option<String>,
        interval_ms: Option<String>,
        away_after_secs: Option<String>,
        cascade: Option<String>,
    ) -> (res: Result<PresenceSettings, SettingsError>)
        ensures
            ({
                let cam = parse_signed(or_default(camera_device, "0"@), i32::MIN as int, i32::MAX as int);
                let itv = parse_unsigned(or_default(interval_ms, "1000"@), u64::MAX as int);
                let away = parse_unsigned(or_default(away_after_secs, "30"@), u64::MAX as int);
                if cam is Err {
                    res == Err::<PresenceSettings, SettingsError>(SettingsError::CameraDevice(cam->Err_0))
                } else if itv is Err {
                    res == Err::<PresenceSettings, SettingsError>(SettingsError::Interval(itv->Err_0))
                } else if away is Err {
                    res == Err::<PresenceSettings, SettingsError>(SettingsError::AwayAfter(away->Err_0))
                } else {
                    res matches Ok(s) && {
                        &&& s.bind@ == or_default(bind, "127.0.0.1:8791"@)
                        &&& s.camera_index as int == cam->Ok_0
                        &&& s.interval_ms as int == (if itv->Ok_0 < MIN_INTERVAL_MS {
                            MIN_INTERVAL_MS as int
                        } else {
                            itv->Ok_0
                        })
                        &&& s.away_after_secs as int == away->Ok_0
                        &&& s.cascade_path@ == or_default(
                            cascade,
                            "/usr/share/opencv4/haarcascades/haarcascade_frontalface_default.xml"@,
                        )
                    }
                }
            }),
    {
        let bind = value_or(bind, "127.0.0.1:8791");
        let camera_text = value_or(camera_device, "0");
        let camera_index = match parse_i32(camera_text.as_str()) {
            Ok(v) => v,
            Err(k) => {
                return Err(SettingsError::CameraDevice(k));
            },
        };
        let interval_text = value_or(interval_ms, "1000");
        let interval = match parse_u64(interval_text.as_str()) {
            Ok(v) => v,
            Err(k) => {
                return Err(SettingsError::Interval(k));
            },
        };
        let away_text = value_or(away_after_secs, "30");
        let away = match parse_u64(away_text.as_str()) {
            Ok(v) => v,
            Err(k) => {
                return Err(SettingsError::AwayAfter(k));
            },
        };
        let cascade_path = value_or(
            cascade,
            "/usr/share/opencv4/haarcascades/haarcascade_frontalface_default.xml",
        );
        let interval_ms = if interval < MIN_INTERVAL_MS {
            MIN_INTERVAL_MS
        } else {
            interval
        };
        Ok(PresenceSettings { bind, camera_index, interval_ms, away_after_secs: away, cascade_path })
    }
}

/// The published presence state.
///
/// Every value is well formed (a type invariant): its state is one of
/// "present", "away", "unknown" and "camera_unavailable", and it counts as
/// present exactly when its state is "present".
#[derive(Debug)]
pub struct Presence {
    present: bool,
    state: String,
    detail: String,
}

/// The states that the detector publishes.
pub open spec fn known_state(state: Seq<char>) -> bool {
    state == "present"@ || state == "away"@ || state == "unknown"@ || state == "camera_unavailable"@
}

impl Presence {
    /// Whether a person counts as present.
    pub closed spec fn spec_present(&self) -> bool {
        self.present
    }

    /// The state's name.
    pub closed spec fn spec_state(&self) -> Seq<char> {
        self.state@
    }

    /// Why the state holds.
    pub closed spec fn spec_detail(&self) -> Seq<char> {
        self.detail@
    }

    /// A known state, present exactly when the state is "present".
    pub open spec fn well_formed(&self) -> bool {
        &&& known_state(self.spec_state())
        &&& self.spec_present() == (self.spec_state() == "present"@)
    }

    #[verifier::type_invariant]
    closed spec fn presence_invariant(&self) -> bool {
        self.well_formed()
    }

    /// Whether a person counts as present.
    pub fn present(&self) -> (res: bool)
        ensures
            res == self.spec_present(),
            self.well_formed(),
    {
        proof {
            use_type_invariant(self);
        }
        self.present
    }

    /// The state's name.
    pub fn state(&self) -> (res: &String)
        ensures
            res@ == self.spec_state(),
            self.well_formed(),
    {
        proof {
            use_type_invariant(self);
        }
        &self.state
    }

    /// Why the state holds.
    pub fn detail(&self) -> (res: &String)
        ensures
            res@ == self.spec_detail(),
            self.well_formed(),
    {
        proof {
            use_type_invariant(self);
        }
        &self.detail
    }

    /// The three fields: present, state, detail.
    pub fn into_parts(self) -> (res: (bool, String, String))
        ensures
            res.0 == self.spec_present(),
            res.1@ == self.spec_state(),
            res.2@ == self.spec_detail(),
            res.0 == (res.1@ == "present"@),
            known_state(res.1@),
    {
        proof {
            use_type_invariant(&self);
        }
        (self.present, self.state, self.detail)
    }

    /// The state before the camera has been tried.
    pub fn starting() -> (res: Presence)
        ensures
            !res.spec_present(),
            res.spec_state() == "unknown"@,
            res.spec_detail() == "starting local camera detector"@,
            res.well_formed(),
    {
        proof {
            reveal_strlit("unknown");
            reveal_strlit("present");
            assert("unknown"@[0] == 'u' && "present"@[0] == 'p');
            assert("present"@.len() == 7);
        }
        Presence {
            present: false,
            state: String::from_str("unknown"),
            detail: String::from_str("starting local camera detector"),
        }
    }

    /// The camera or the detector cannot be used; `detail` says why.
    pub fn camera_unavailable(detail: String) -> (res: Presence)
        ensures
            !res.spec_present(),
            res.spec_state() == "camera_unavailable"@,
            res.spec_detail() == detail@,
            res.well_formed(),
    {
        proof {
            reveal_strlit("camera_unavailable");
            reveal_strlit("present");
            assert("camera_unavailable"@.len() == 18);
            assert("present"@.len() == 7);
        }
        Presence { present: false, state: String::from_str("camera_unavailable"), detail }
    }

    /// The face cascade could not be loaded; `error` is the loader's text.
    pub fn cascade_failed(error: &str) -> (res: Presence)
        ensures
            !res.spec_present(),
            res.spec_state() == "camera_unavailable"@,
            res.spec_detail() == "could not load face cascade: "@ + error@,
            res.well_formed(),
    {
        Presence::camera_unavailable(join("could not load face cascade: ", error))
    }

    /// The camera could not be opened; `error` is the driver's text, if any.
    pub fn camera_failed(error: Option<&str>) -> (res: Presence)
        ensures
            !res.spec_present(),
            res.spec_state() == "camera_unavailable"@,
            res.spec_detail() == match error {
                Some(e) => "camera could not be opened: "@ + e@,
                None => "camera could not be opened"@,
            },
            res.well_formed(),
    {
        match error {
            Some(e) => Presence::camera_unavailable(join("camera could not be opened: ", e)),
            None => Presence::camera_unavailable(String::from_str("camera could not be opened")),
        }
    }

    /// A person is in front of the camera.
    pub fn present_now() -> (res: Presence)
        ensures
            res.spec_present(),
            res.spec_state() == "present"@,
            res.spec_detail() == "person detected locally"@,
            res.well_formed(),
    {
        Presence {
            present: true,
            state: String::from_str("present"),
            detail: String::from_str("person detected locally"),
        }
    }

    /// No face has been seen for the absence period.
    pub fn away_now() -> (res: Presence)
        ensures
            !res.spec_present(),
            res.spec_state() == "away"@,
            res.spec_detail() == "no face detected for the configured absence period"@,
            res.well_formed(),
    {
        proof {
            reveal_strlit("away");
            reveal_strlit("present");
            assert("away"@.len() == 4);
            assert("present"@.len() == 7);
        }
        Presence {
            present: false,
            state: String::from_str("away"),
            detail: String::from_str("no face detected for the configured absence period"),
        }
    }

    /// The state that a tracker update publishes.
    pub fn published(update: PresenceUpdate) -> (res: Presence)
        ensures
            res.well_formed(),
            res.spec_present() == (update == PresenceUpdate::Present),
            update == PresenceUpdate::Present ==> res.spec_state() == "present"@,
            update == PresenceUpdate::Away ==> res.spec_state() == "away"@,
    {
        match update {
            PresenceUpdate::Present => Presence::present_now(),
            PresenceUpdate::Away => Presence::away_now(),
        }
    }
}

/// What one camera frame gave.
#[derive(Debug, Clone, Copy, PartialEq, Eq)]
pub enum FrameResult {
    /// The camera gave no frame.
    Unreadable,
    /// The frame is empty.
    Empty,
    /// The frame could not be turned to grey.
    ConversionFailed,
    /// The face detector failed on the frame.
    DetectionFailed,
    /// The detector found this many faces.
    Faces(usize),
}

impl FrameResult {
    /// Whether the frame shows a face.
    pub open spec fn shows_face(self) -> bool {
        self matches FrameResult::Faces(n) && n > 0
    }
}

/// What the tracker publishes after a frame.
#[derive(Debug, Clone, Copy, PartialEq, Eq)]
pub enum PresenceUpdate {
    Present,
    Away,
}

/// Counts consecutive frames with a face and remembers when a face was
/// last seen. Times are nanoseconds on a monotonic clock that starts with
/// the detector.
#[derive(Debug, Clone, Copy, PartialEq, Eq)]
pub struct PresenceTracker {
    pub consecutive_present: u32,
    pub last_seen: i128,
    pub away_after_secs: u64,
}

/// Time since `since` at `now`, never below zero.
pub open spec fn elapsed_since(now: int, since: int) -> int {
    if now >= since {
        now - since
    } else {
        0
    }
}

/// The tracker after a frame, and what it publishes: present after two
/// consecutive frames with a face; away once no face has been seen for the
/// absence period; otherwise nothing new.
pub open spec fn observe_effect(t: PresenceTracker, face: bool, now: u64) -> (PresenceTracker, Option<
    PresenceUpdate,
>) {
    let count = if face {
        if t.consecutive_present == u32::MAX {
            u32::MAX
        } else {
            (t.consecutive_present + 1) as u32
        }
    } else {
        0u32
    };
    let last = if face {
        now as i128
    } else {
        t.last_seen
    };
    let next = PresenceTracker { consecutive_present: count, last_seen: last, away_after_secs: t.away_after_secs };
    let update = if count >= 2 {
        Some(PresenceUpdate::Present)
    } else if elapsed_since(now as int, last as int) >= t.away_after_secs * NANOS_PER_SEC {
        Some(PresenceUpdate::Away)
    } else {
        None
    };
    (next, update)
}

impl PresenceTracker {
    /// A tracker that has seen no face: it counts the last face as seen one
    /// second more than the absence period before the start, so the person
    /// counts as away until a face appears.
    pub fn new(away_after_secs: u64) -> (res: PresenceTracker)
        requires
            away_after_secs < u64::MAX,
        ensures
            res.consecutive_present == 0,
            res.last_seen == -((away_after_secs + 1) * NANOS_PER_SEC),
            res.away_after_secs == away_after_secs,
    {
        let lead: i128 = (away_after_secs as i128 + 1) * NANOS_PER_SEC;
        PresenceTracker { consecutive_present: 0, last_seen: -lead, away_after_secs }
    }

    /// Takes one frame seen at `now`.
    pub fn observe(&mut self, frame: FrameResult, now: u64) -> (res: Option<PresenceUpdate>)
        ensures
            (*final(self), res) == observe_effect(*old(self), frame.shows_face(), now),
    {
        let face = match frame {
            FrameResult::Faces(n) => n > 0,
            _ => false,
        };
        if face {
            self.consecutive_present = self.consecutive_present.saturating_add(1);
            self.last_seen = now as i128;
        } else {
            self.consecutive_present = 0;
        }
        if self.consecutive_present >= 2 {
            return Some(PresenceUpdate::Present);
        }
        let now_i: i128 = now as i128;
        let period: i128 = (self.away_after_secs as i128) * NANOS_PER_SEC;
        let absent_long_enough = if now_i >= self.last_seen {
            match now_i.checked_sub(self.last_seen) {
                Some(elapsed) => elapsed >= period,
                None => true,
            }
        } else {
            0 >= period
        };
        if absent_long_enough {
            Some(PresenceUpdate::Away)
        } else {
            None
        }
    }
}

/// Presence needs two frames in a row with a face: a tracker publishes
/// "present" only on a frame with a face that follows another one.
pub proof fn lemma_present_needs_consecutive_faces(t: PresenceTracker, face: bool, now: u64)
    ensures
        observe_effect(t, face, now).1 == Some(PresenceUpdate::Present) ==> face && t.consecutive_present >= 1,
        !face ==> observe_effect(t, face, now).0.consecutive_present == 0,
{
}

/// Absence needs the whole absence period: a tracker that saw a face at
/// `last_seen` does not publish "away" on a frame less than the period
/// later, so one missed frame does not mark the person away.
pub proof fn lemma_away_needs_full_absence(t: PresenceTracker, face: bool, now: u64)
    requires
        t.last_seen <= now,
        now - t.last_seen < t.away_after_secs * NANOS_PER_SEC,
    ensures
        observe_effect(t, face, now).1 != Some(PresenceUpdate::Away),
{
}

/// A face keeps the person present: after a frame with a face the next
/// frame with a face publishes "present".
pub proof fn lemma_faces_keep_present(t: PresenceTracker, now: u64, later: u64)
    ensures
        observe_effect(observe_effect(t, true, now).0, true, later).1 == Some(PresenceUpdate::Present),
{
}

/// A frame with a face records its time and counts; a frame without one
/// publishes "away" once the absence period has passed since the last face;
/// two faces in a row always publish "present".
pub proof fn lemma_observe_records_and_reports(t: PresenceTracker, face: bool, now: u64)
    ensures
        face ==> observe_effect(t, face, now).0.last_seen == now as i128 && observe_effect(
            t,
            face,
            now,
        ).0.consecutive_present >= 1,
        !face ==> observe_effect(t, face, now).0.last_seen == t.last_seen,
        observe_effect(t, face, now).0.away_after_secs == t.away_after_secs,
        face && t.consecutive_present >= 1 ==> observe_effect(t, face, now).1 == Some(PresenceUpdate::Present),
        !face && elapsed_since(now as int, t.last_seen as int) >= t.away_after_secs * NANOS_PER_SEC ==> observe_effect(
            t,
            face,
            now,
        ).1 == Some(PresenceUpdate::Away),
        observe_effect(t, face, now).1 == Some(PresenceUpdate::Away) ==> elapsed_since(
            now as int,
            observe_effect(t, face, now).0.last_seen as int,
        ) >= t.away_after_secs * NANOS_PER_SEC,
{
}

} // verus!
