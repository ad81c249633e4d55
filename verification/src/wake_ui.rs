//! The wake UI: whether Jimmy is listening and whether "Hey Jimmy" was
//! heard in the last few seconds.

use vstd::prelude::*;

verus! {

broadcast use vstd::string::group_string_axioms;

/// How long the orb glows after a wake event, in nanoseconds.
pub const WAKE_WINDOW_NANOS: u64 = 6_000_000_000;

/// What the UI shows.
#[derive(Debug, Clone)]
pub struct UiResponse {
    pub listening: bool,
    pub active: bool,
    pub phrase: Option<String>,
}

/// The UI state. Times are nanoseconds on a monotonic clock that starts
/// with the UI server.
#[derive(Debug, Clone, Copy, PartialEq, Eq)]
pub struct UiState {
    pub listening: bool,
    pub last_wake: Option<u64>,
}

/// Whether a wake event at `wake` still shows at `now`: less than six
/// seconds have passed (no time passes before the event).
pub open spec fn wake_active(wake: Option<u64>, now: u64) -> bool {
    match wake {
        Some(t) => (if now >= t { now - t } else { 0 }) < WAKE_WINDOW_NANOS,
        None => false,
    }
}

impl UiState {
    /// Not listening, never woken.
    pub fn new() -> (res: UiState)
        ensures
            !res.listening,
            res.last_wake is None,
    {
        UiState { listening: false, last_wake: None }
    }

    /// What the UI shows at `now`: the phrase "Hey Jimmy" while a wake
    /// event is active.
    pub fn snapshot(&self, now: u64) -> (res: UiResponse)
        ensures
            res.listening == self.listening,
            res.active == wake_active(self.last_wake, now),
            res.active ==> (res.phrase matches Some(p) && p@ == "Hey Jimmy"@),
            !res.active ==> res.phrase is None,
    {
        let active = match self.last_wake {
            Some(t) => {
                let elapsed: u64 = if now >= t {
                    now - t
                } else {
                    0
                };
                elapsed < WAKE_WINDOW_NANOS
            },
            None => false,
        };
        let phrase = if active {
            Some(String::from_str("Hey Jimmy"))
        } else {
            None
        };
        UiResponse { listening: self.listening, active, phrase }
    }

    /// A wake event at `now`, with the phrase heard (by default "Hey Jimmy").
    pub fn wake(&mut self, phrase: Option<String>, now: u64) -> (res: UiResponse)
        ensures
            final(self).listening == old(self).listening,
            final(self).last_wake == Some(now),
            res.listening == old(self).listening,
            res.active,
            res.phrase matches Some(p) && p@ == (match phrase {
                Some(q) => q@,
                None => "Hey Jimmy"@,
            }),
    {
        self.last_wake = Some(now);
        let shown = match phrase {
            Some(p) => p,
            None => String::from_str("Hey Jimmy"),
        };
        UiResponse { listening: self.listening, active: true, phrase: Some(shown) }
    }

    /// Jimmy starts listening.
    pub fn start_listening(&mut self)
        ensures
            final(self).listening,
            final(self).last_wake == old(self).last_wake,
    {
        self.listening = true;
    }
}

/// A wake event shows for six seconds: from the event on, the UI is active
/// exactly while less than six seconds have passed.
pub proof fn lemma_wake_shows_six_seconds(wake: u64, now: u64)
    requires
        wake <= now,
    ensures
        wake_active(Some(wake), now) <==> now - wake < WAKE_WINDOW_NANOS,
        wake_active(Some(wake), wake),
        !wake_active(None, now),
{
}

} // verus!
