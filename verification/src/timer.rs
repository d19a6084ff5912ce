//! The countdown timer: remaining time in ticks, decremented once per
//! tick while positive, credited by pickups, reset when a session
//! starts. It also keeps the three digit values (minutes, tens of
//! seconds, seconds) the overlay renderer shows.

use vstd::prelude::*;

verus! {

/// Ticks per second of the frame signal.
pub const TICKS_PER_SECOND: usize = 60;

/// What a fresh session starts with: sixty seconds.
pub const SESSION_TIME: usize = 60 * 60;

/// The countdown timer and its overlay digits.
pub struct Timer {
    /// Remaining time, in ticks.
    pub time: usize,
    /// Whether the overlay is shown.
    pub visible: bool,
    /// The minutes digit shown.
    pub minute_digit: usize,
    /// The tens-of-seconds digit shown.
    pub tens_digit: usize,
    /// The seconds digit shown.
    pub ones_digit: usize,
}

/// The timer a fresh game starts with: hidden, at zero, its display
/// reading 1:00.
pub open spec fn timer_init_v() -> Timer {
    Timer { time: 0, visible: false, minute_digit: 1, tens_digit: 0, ones_digit: 0 }
}

/// What one timer tick does: while time remains it falls by one and
/// the digits follow; at zero nothing changes.
pub open spec fn timer_tick_v(t: Timer) -> Timer {
    if t.time == 0 {
        t
    } else {
        let left = (t.time - 1) as usize;
        Timer {
            time: left,
            visible: t.visible,
            minute_digit: ((left / 60) / 60) as usize,
            tens_digit: (((left / 60) % 60) / 10) as usize,
            ones_digit: ((left / 60) % 10) as usize,
        }
    }
}

impl Timer {
    /// A hidden timer at zero, its display reading 1:00.
    pub fn new() -> (r: Timer)
        ensures
            r == timer_init_v(),
    {
        Timer { time: 0, visible: false, minute_digit: 1, tens_digit: 0, ones_digit: 0 }
    }

    /// One tick: while time remains, it falls by one and the digits
    /// follow; at zero nothing changes.
    pub fn update(&mut self)
        ensures
            *final(self) == timer_tick_v(*old(self)),
    {
        if self.time == 0 {
            return ;
        }
        self.time -= 1;
        let seconds = self.time / 60;
        self.ones_digit = seconds % 10;
        self.tens_digit = ((seconds % 60) / 10) % 60;
        self.minute_digit = seconds / 60;
        proof {
            assert((seconds % 60) / 10 < 60) by {
                assert(seconds % 60 < 60);
                vstd::arithmetic::div_mod::lemma_div_is_ordered(
                    (seconds % 60) as int,
                    59,
                    10,
                );
            }
        }
    }

    /// Credits picked-up time.
    pub fn add_time(&mut self, time: usize)
        requires
            old(self).time + time <= 0x7fff_ffff,
        ensures
            *final(self) == (Timer { time: (old(self).time + time) as usize, ..*old(self) }),
    {
        self.time += time;
    }

    /// Rewinds to a full session's time.
    pub fn reset(&mut self)
        ensures
            *final(self) == (Timer { time: SESSION_TIME, ..*old(self) }),
    {
        self.time = 60 * 60;
    }

    /// Shows the overlay.
    pub fn show(&mut self)
        ensures
            *final(self) == (Timer { visible: true, ..*old(self) }),
    {
        self.visible = true;
    }

    /// Removes the overlay from view.
    pub fn conceal(&mut self)
        ensures
            *final(self) == (Timer { visible: false, ..*old(self) }),
    {
        self.visible = false;
    }
}

} // verus!
