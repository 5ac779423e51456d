//! A transient on-screen notice: a text shown for a fixed interval after
//! it was posted. The timing logic lives here; drawing stays outside.

use vstd::prelude::*;

verus! {

/// Milliseconds a posted notice stays visible.
pub const NOTIFICATION_INTERVAL_MS: u64 = 3_000;

/// A notice and the time it was posted, if ever.
#[derive(Debug)]
pub struct Notification {
    pub text: String,
    pub display_time: Option<u64>,
    pub display_interval: u64,
}

impl Default for Notification {
    /// A placeholder text, never yet posted, with the stock three-second
    /// interval.
    fn default() -> (n: Notification)
        ensures
            n.text@ == "Some text"@,
            n.display_time is None,
            n.display_interval == NOTIFICATION_INTERVAL_MS,
    {
        Notification {
            text: "Some text".to_string(),
            display_time: None,
            display_interval: NOTIFICATION_INTERVAL_MS,
        }
    }
}

impl Notification {
    /// Whether the notice should be on screen at `now`: only within
    /// `display_interval` of the last posting.
    pub fn should_display(&self, now: u64) -> (r: bool)
        requires
            self.display_time matches Some(t) ==> t + self.display_interval <= u64::MAX,
        ensures
            r == match self.display_time {
                Some(t) => now < t + self.display_interval,
                None => false,
            },
    {
        if let Some(display_time) = self.display_time {
            return now < display_time + self.display_interval;
        }
        false
    }

    /// Post a new text at `now`.
    pub fn display(&mut self, now: u64, text: String)
        ensures
            final(self).display_time == Some(now),
            final(self).text == text,
            final(self).display_interval == old(self).display_interval,
    {
        self.display_time = Some(now);
        self.text = text;
    }
}

} // verus!
