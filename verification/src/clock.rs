//! The playback clock: a position that is derived from timestamps alone.
//!
//! The clock never reads a time itself. Every operation that needs the
//! present moment takes it as `now`, in nanoseconds on a scale that never
//! runs backwards, and the position is the offset at which playing began
//! plus the time that has passed since. Nothing else moves it.

use vstd::prelude::*;

verus! {

/// Nanoseconds in one second.
pub const NANOS_PER_SECOND: u64 = 1_000_000_000;

/// What a tick did to the clock.
#[derive(Clone, Copy, Debug, PartialEq, Eq, Structural)]
pub enum Step {
    /// The clock is stopped: nothing changed.
    Idle,
    /// The position moved forward and lies before the end.
    Advanced,
    /// The end was reached while looping: playing began again from zero.
    Restarted,
    /// The end was reached without looping: the clock stopped.
    Ended,
}

/// The state of the transport.
#[derive(Clone, Copy, Debug, PartialEq, Eq)]
pub struct PlaybackState {
    /// Whether the transport is playing.
    pub playing: bool,
    /// The position in nanoseconds.
    pub position: u64,
    /// The position at which playing last began.
    pub play_offset: u64,
    /// The moment at which playing last began; present while playing.
    pub play_started: Option<u64>,
    /// Whether playing begins again when the end is reached.
    pub looping: bool,
}

impl PlaybackState {
    /// The clock is anchored exactly while it plays, and rests at zero
    /// while it is stopped.
    pub open spec fn wf(self) -> bool {
        &&& self.playing == self.play_started.is_some()
        &&& !self.playing ==> self.position == 0
    }

    /// The state in which every clock begins: stopped at zero, looping.
    pub open spec fn initial() -> PlaybackState {
        PlaybackState {
            playing: false,
            position: 0,
            play_offset: 0,
            play_started: None,
            looping: true,
        }
    }

    /// The state after playing began at `now`.
    pub open spec fn started(self, now: u64) -> PlaybackState {
        PlaybackState {
            playing: true,
            position: 0,
            play_offset: 0,
            play_started: Some(now),
            looping: self.looping,
        }
    }

    /// The state after a stop.
    pub open spec fn stopped(self) -> PlaybackState {
        PlaybackState {
            playing: false,
            position: 0,
            play_offset: self.play_offset,
            play_started: None,
            looping: self.looping,
        }
    }

    /// The state after play and stop were toggled at `now`.
    pub open spec fn toggled(self, now: u64) -> PlaybackState {
        if self.playing {
            self.stopped()
        } else {
            self.started(now)
        }
    }

    /// The position that the anchor gives at `now`: the offset plus the
    /// time since playing began, held at the largest position that can be
    /// told. A moment before the anchor counts as the anchor itself, and a
    /// clock without an anchor stays where it is.
    pub open spec fn position_at(self, now: u64) -> u64 {
        match self.play_started {
            Some(since) => {
                let elapsed = if now >= since {
                    now - since
                } else {
                    0
                };
                if self.play_offset + elapsed > u64::MAX {
                    u64::MAX
                } else {
                    (self.play_offset + elapsed) as u64
                }
            },
            None => self.position,
        }
    }

    /// What a tick at `now` does, for a file that lasts `duration`.
    pub open spec fn step_at(self, now: u64, duration: u64) -> Step {
        if !self.playing {
            Step::Idle
        } else if self.play_started.is_some() && self.position_at(now) >= duration {
            if self.looping {
                Step::Restarted
            } else {
                Step::Ended
            }
        } else {
            Step::Advanced
        }
    }

    /// The state after a tick at `now`, for a file that lasts `duration`.
    pub open spec fn ticked(self, now: u64, duration: u64) -> PlaybackState {
        match self.step_at(now, duration) {
            Step::Idle => self,
            Step::Advanced => PlaybackState { position: self.position_at(now), ..self },
            Step::Restarted => self.started(now),
            Step::Ended => self.stopped(),
        }
    }

    /// A stopped clock at zero that loops.
    pub fn new() -> (s: PlaybackState)
        ensures
            s == PlaybackState::initial(),
            s.wf(),
    {
        PlaybackState {
            playing: false,
            position: 0,
            play_offset: 0,
            play_started: None,
            looping: true,
        }
    }

    /// Begins to play from zero, anchored at `now`; a clock that plays
    /// already begins again.
    pub fn play(&mut self, now: u64)
        ensures
            *final(self) == old(self).started(now),
            final(self).wf(),
    {
        self.playing = true;
        self.play_offset = 0;
        self.position = 0;
        self.play_started = Some(now);
    }

    /// Stops and goes back to zero.
    pub fn stop(&mut self)
        ensures
            *final(self) == old(self).stopped(),
            final(self).wf(),
    {
        self.playing = false;
        self.position = 0;
        self.play_started = None;
    }

    /// Stops a clock that plays and starts one that is stopped. Returns
    /// whether the clock plays afterwards.
    pub fn toggle_play(&mut self, now: u64) -> (playing: bool)
        ensures
            *final(self) == old(self).toggled(now),
            playing == !old(self).playing,
            playing == final(self).playing,
            final(self).wf(),
    {
        if self.playing {
            self.stop();
            false
        } else {
            self.play(now);
            true
        }
    }

    /// Turns looping on or off.
    pub fn toggle_loop(&mut self)
        ensures
            *final(self) == (PlaybackState { looping: !old(self).looping, ..*old(self) }),
            old(self).wf() ==> final(self).wf(),
    {
        self.looping = !self.looping;
    }

    /// Brings the position up to `now`. A stopped clock stays as it is. A
    /// clock that has reached `duration` begins again from zero where it
    /// loops, and stops where it does not.
    pub fn tick(&mut self, now: u64, duration: u64) -> (step: Step)
        ensures
            step == old(self).step_at(now, duration),
            *final(self) == old(self).ticked(now, duration),
            old(self).wf() ==> final(self).wf(),
            old(self).wf() ==> final(self).position == 0 || final(self).position < duration,
    {
        if !self.playing {
            return Step::Idle;
        }
        match self.play_started {
            Some(since) => {
                let elapsed: u64 = now.saturating_sub(since);
                self.position = self.play_offset.saturating_add(elapsed);
                if self.position >= duration {
                    if self.looping {
                        self.play(now);
                        return Step::Restarted;
                    } else {
                        self.stop();
                        return Step::Ended;
                    }
                }
            },
            None => {},
        }
        Step::Advanced
    }
}

/// Stopping twice leaves the clock as stopping once does: at zero and not
/// playing.
pub proof fn law_stop_is_idempotent(s: PlaybackState)
    ensures
        s.stopped().stopped() == s.stopped(),
        s.stopped().position == 0,
        !s.stopped().playing,
        s.stopped().wf(),
{
}

/// A looping clock that reaches the end begins again from zero: the tick
/// anchors it at `now`, so that its position at any later moment is the
/// time since that tick, however long it had been playing before.
pub proof fn law_loop_restarts_from_zero(s: PlaybackState, now: u64, duration: u64, later: u64)
    requires
        s.wf(),
        s.playing,
        s.looping,
        s.position_at(now) >= duration,
        later >= now,
    ensures
        s.step_at(now, duration) == Step::Restarted,
        s.ticked(now, duration).playing,
        s.ticked(now, duration).position == 0,
        s.ticked(now, duration).position_at(later) == later - now,
{
}

/// A clock that does not loop stops when it reaches the end, and stays
/// stopped: no later tick moves it or starts it again.
pub proof fn law_end_stops_once(
    s: PlaybackState,
    now: u64,
    duration: u64,
    later: u64,
    later_duration: u64,
)
    requires
        s.wf(),
        s.playing,
        !s.looping,
        s.position_at(now) >= duration,
    ensures
        s.step_at(now, duration) == Step::Ended,
        s.ticked(now, duration) == s.stopped(),
        !s.ticked(now, duration).playing,
        s.ticked(now, duration).step_at(later, later_duration) == Step::Idle,
        s.ticked(now, duration).ticked(later, later_duration) == s.ticked(now, duration),
{
}

/// Only a tick moves the position, and only while the clock plays: a tick
/// puts a playing clock at its offset plus the time since it began, or
/// back to zero at the end, and leaves a stopped clock untouched.
pub proof fn law_position_follows_anchor(s: PlaybackState, now: u64, duration: u64)
    requires
        s.wf(),
    ensures
        !s.playing ==> s.ticked(now, duration) == s,
        s.playing ==> s.ticked(now, duration).position == s.position_at(now) || s.ticked(
            now,
            duration,
        ).position == 0,
        s.ticked(now, duration).position <= duration,
        s.ticked(now, duration).wf(),
{
}

} // verus!
