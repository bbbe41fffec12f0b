//! Frame timing: the time between two ticks and an optional frame-rate
//! ceiling. Timestamps are nanoseconds on a monotonic clock of the host.

use vstd::prelude::*;

verus! {

pub const NANOS_PER_SECOND: u64 = 1_000_000_000;

/// The shortest time a frame may take under a ceiling of `fps_limit` frames
/// per second. No ceiling, or one of zero frames, sets no interval.
pub open spec fn frame_interval(fps_limit: Option<u32>) -> Option<nat> {
    match fps_limit {
        Some(fps) => if fps > 0 {
            Some((NANOS_PER_SECOND as nat) / (fps as nat))
        } else {
            None
        },
        None => None,
    }
}

/// What a [`Clock`] holds.
pub struct ClockView {
    /// When the latest tick began, if there was one.
    pub previous: Option<nat>,
    /// The time between the latest tick and the one before it.
    pub delta: nat,
    /// The shortest time a frame may take, if the rate is capped.
    pub frame_interval: Option<nat>,
}

impl ClockView {
    /// A clock that has not ticked yet.
    pub open spec fn start(fps_limit: Option<u32>) -> ClockView {
        ClockView { previous: None, delta: 0, frame_interval: frame_interval(fps_limit) }
    }

    /// The time from the latest tick to `now`: zero before the first tick, and
    /// zero where `now` lies before that tick.
    pub open spec fn elapsed(self, now: nat) -> nat {
        match self.previous {
            Some(previous) => if now >= previous {
                (now - previous) as nat
            } else {
                0
            },
            None => 0,
        }
    }

    /// The clock after a tick at `now`.
    pub open spec fn tick(self, now: nat) -> ClockView {
        ClockView {
            previous: Some(now),
            delta: self.elapsed(now),
            frame_interval: self.frame_interval,
        }
    }

    /// How long the host has to wait at `now` before the next frame may
    /// begin: what is left of the frame interval, and nothing without one.
    pub open spec fn pause(self, now: nat) -> nat {
        match self.frame_interval {
            Some(interval) => if self.previous is Some && self.elapsed(now) < interval {
                (interval - self.elapsed(now)) as nat
            } else {
                0
            },
            None => 0,
        }
    }
}

/// Tracks the time between ticks and paces frames.
pub struct Clock {
    previous: Option<u64>,
    delta: u64,
    frame_interval: Option<u64>,
}

impl View for Clock {
    type V = ClockView;

    closed spec fn view(&self) -> ClockView {
        ClockView {
            previous: match self.previous {
                Some(previous) => Some(previous as nat),
                None => None,
            },
            delta: self.delta as nat,
            frame_interval: match self.frame_interval {
                Some(interval) => Some(interval as nat),
                None => None,
            },
        }
    }
}

impl Clock {
    pub fn new(fps_limit: Option<u32>) -> (clock: Self)
        ensures
            clock@ == ClockView::start(fps_limit),
    {
        let frame_interval: Option<u64> = match fps_limit {
            Some(fps) => if fps > 0 {
                Some(NANOS_PER_SECOND / (fps as u64))
            } else {
                None
            },
            None => None,
        };
        Clock { previous: None, delta: 0, frame_interval }
    }

    /// Begins a tick at `now` and stores the time since the tick before.
    pub fn update(&mut self, now: u64)
        ensures
            final(self)@ == old(self)@.tick(now as nat),
    {
        self.delta = self.since_previous(now);
        self.previous = Some(now);
    }

    /// The time between the latest tick and the one before it.
    pub fn delta(&self) -> (delta: u64)
        ensures
            delta == self@.delta,
    {
        self.delta
    }

    /// Ends the frame at `now`. The host waits for the returned time, then
    /// asks for the next redraw.
    pub fn end_frame(&self, now: u64) -> (wait: u64)
        ensures
            wait == self@.pause(now as nat),
    {
        match self.frame_interval {
            Some(interval) => {
                let elapsed: u64 = self.since_previous(now);
                if self.previous.is_some() && elapsed < interval {
                    interval - elapsed
                } else {
                    0
                }
            },
            None => 0,
        }
    }

    fn since_previous(&self, now: u64) -> (elapsed: u64)
        ensures
            elapsed == self@.elapsed(now as nat),
    {
        match self.previous {
            Some(previous) => if now >= previous {
                now - previous
            } else {
                0
            },
            None => 0,
        }
    }
}

/// The ceiling holds: a frame that waits out its pause lasts at least the
/// frame interval, and a frame that has already lasted that long does not
/// wait at all.
pub proof fn lemma_pause_fills_frame_interval(clock: ClockView, now: nat)
    requires
        clock.previous matches Some(previous) && previous <= now,
        clock.frame_interval is Some,
    ensures
        clock.elapsed(now) + clock.pause(now) >= clock.frame_interval->0,
        clock.elapsed(now) >= clock.frame_interval->0 ==> clock.pause(now) == 0,
        clock.elapsed(now) < clock.frame_interval->0 ==> clock.elapsed(now) + clock.pause(now)
            == clock.frame_interval->0,
{
}

} // verus!
