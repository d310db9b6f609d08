//! The player: a clock, a meter and the project they play for.
//!
//! The player touches neither the sound device nor the disk. Each
//! operation changes its state and returns the `Effect` that whoever
//! drives it has to carry out.

use vstd::prelude::*;
use vstd::utf8::encode_utf8;
use crate::clock::{PlaybackState, Step};
use crate::error::LoadError;
use crate::meter::{LevelMeter, DEFAULT_CHUNK_MS};
use crate::status::PlayerStatus;
use crate::tempo::{bar_beat, bar_of, beat_of, beats_per_bar_of, parse_beats_per_bar};
use crate::wav::{decode, wav_signal};

verus! {

/// What a project says of itself.
#[derive(Clone, Debug, Default, PartialEq, Eq)]
pub struct ProjectState {
    /// The name of the project.
    pub name: String,
    /// The tempo in thousandths of a beat per minute; zero where it is
    /// undefined.
    pub bpm_milli: u32,
    /// The sample rate of the project.
    pub sample_rate: u32,
    /// The time signature, such as `4/4`.
    pub time_sig: String,
}

/// What the driver has to do after an operation.
#[derive(Clone, Debug, PartialEq, Eq)]
pub enum Effect {
    /// Nothing.
    Nothing,
    /// Put out the whole sound file from its start, through a fresh
    /// output that takes the place of the one in use.
    StartAudio,
    /// Halt the output, give it up for a fresh idle one, and remove the
    /// published status.
    StopAudio,
    /// Publish this status in place of the one published before.
    Publish(PlayerStatus),
}

/// A player for one sound file.
#[derive(Debug)]
pub struct Player {
    /// The project that the file belongs to.
    pub project: ProjectState,
    /// The path of the sound file.
    pub audio_file: String,
    /// How long the file lasts, in nanoseconds.
    pub audio_duration: u64,
    /// The transport.
    pub clock: PlaybackState,
    /// The levels of the file.
    pub meter: LevelMeter,
    /// The beats in a bar.
    pub beats_per_bar: u32,
}

impl Player {
    /// The clock and the meter are well formed, a bar has a beat, the
    /// position lies within the file, and the meter reads silence while
    /// the clock is stopped.
    pub open spec fn wf(&self) -> bool {
        &&& self.clock.wf()
        &&& self.meter.wf()
        &&& self.beats_per_bar >= 1
        &&& self.clock.position <= self.audio_duration
        &&& !self.clock.playing ==> self.meter.current_l == 0 && self.meter.current_r == 0
    }

    /// The player after playing began at `now`.
    pub open spec fn after_play(self, now: u64) -> Player {
        Player { clock: self.clock.started(now), ..self }
    }

    /// The player after a stop.
    pub open spec fn after_stop(self) -> Player {
        Player { clock: self.clock.stopped(), meter: self.meter.silenced(), ..self }
    }

    /// The player after play and stop were toggled at `now`.
    pub open spec fn after_toggle(self, now: u64) -> Player {
        if self.clock.playing {
            self.after_stop()
        } else {
            self.after_play(now)
        }
    }

    /// The player after a tick at `now`.
    pub open spec fn after_tick(self, now: u64) -> Player {
        match self.clock.step_at(now, self.audio_duration) {
            Step::Idle => self,
            Step::Restarted => self.after_play(now),
            Step::Ended => self.after_stop(),
            Step::Advanced => Player {
                clock: self.clock.ticked(now, self.audio_duration),
                meter: self.meter.updated(self.clock.position_at(now)),
                ..self
            },
        }
    }

    /// What a tick at `now` asks of the driver.
    pub open spec fn effect_of_tick(self, now: u64) -> Effect {
        match self.clock.step_at(now, self.audio_duration) {
            Step::Idle => Effect::Nothing,
            Step::Restarted => Effect::StartAudio,
            Step::Ended => Effect::StopAudio,
            Step::Advanced => Effect::Publish(self.after_tick(now).snapshot()),
        }
    }

    /// The bar at the present position.
    pub open spec fn bar(&self) -> nat {
        bar_of(self.clock.position as nat, self.project.bpm_milli as nat, self.beats_per_bar as nat)
    }

    /// The beat within the bar at the present position.
    pub open spec fn beat(&self) -> nat {
        beat_of(
            self.clock.position as nat,
            self.project.bpm_milli as nat,
            self.beats_per_bar as nat,
        )
    }

    /// The status of the player as it is.
    pub open spec fn snapshot(self) -> PlayerStatus {
        PlayerStatus {
            playing: self.clock.playing,
            position_nanos: self.clock.position,
            bar: self.bar() as u64,
            beat: self.beat() as u32,
            bpm_milli: self.project.bpm_milli,
            time_sig: self.project.time_sig,
            level_l: self.meter.current_l,
            level_r: self.meter.current_r,
            file: self.audio_file,
        }
    }

    /// Makes a player for the sound file whose bytes are `audio_data`.
    /// Fails with `Undecodable` exactly where the decoder refuses the
    /// bytes, and with `EmptyWindow` exactly where it accepts them and no
    /// metering window can cover their frames. The player that comes back
    /// is stopped at zero and loops; it has measured the file in windows
    /// of fifty milliseconds and taken the beats in a bar from the
    /// project's time signature.
    pub fn new(project: ProjectState, audio_file: String, audio_data: &[u8]) -> (r: Result<
        Player,
        LoadError,
    >)
        ensures
            match wav_signal(audio_data@) {
                None => r == Err::<Player, LoadError>(LoadError::Undecodable),
                Some(signal) => if signal.uncoverable(DEFAULT_CHUNK_MS as nat) {
                    r == Err::<Player, LoadError>(LoadError::EmptyWindow)
                } else {
                    &&& r matches Ok(p)
                    &&& p.wf()
                    &&& p.project == project
                    &&& p.audio_file == audio_file
                    &&& p.audio_duration == signal.duration()
                    &&& p.clock == PlaybackState::initial()
                    &&& p.meter.chunk_ms == DEFAULT_CHUNK_MS
                    &&& p.meter.measures(signal)
                    &&& p.meter.current_l == 0
                    &&& p.meter.current_r == 0
                    &&& p.beats_per_bar == beats_per_bar_of(encode_utf8(project.time_sig@))
                },
            },
    {
        let wave = match decode(audio_data) {
            Ok(wave) => wave,
            Err(e) => {
                return Err(e);
            },
        };
        let audio_duration: u64 = wave.duration();
        let meter = match LevelMeter::from_waveform(&wave, DEFAULT_CHUNK_MS) {
            Ok(meter) => meter,
            Err(e) => {
                return Err(e);
            },
        };
        let beats_per_bar: u32 = parse_beats_per_bar(project.time_sig.as_str());
        Ok(
            Player {
                project,
                audio_file,
                audio_duration,
                clock: PlaybackState::new(),
                meter,
                beats_per_bar,
            },
        )
    }

    /// Begins to play from zero, anchored at `now`; a player that plays
    /// already begins again.
    pub fn play(&mut self, now: u64) -> (effect: Effect)
        ensures
            *final(self) == old(self).after_play(now),
            effect == Effect::StartAudio,
            old(self).wf() ==> final(self).wf(),
    {
        self.clock.play(now);
        Effect::StartAudio
    }

    /// Stops, goes back to zero and puts the meter back to silence.
    pub fn stop(&mut self) -> (effect: Effect)
        ensures
            *final(self) == old(self).after_stop(),
            effect == Effect::StopAudio,
            old(self).wf() ==> final(self).wf(),
    {
        self.clock.stop();
        self.meter.silence();
        Effect::StopAudio
    }

    /// Stops a player that plays and starts one that is stopped.
    pub fn toggle_play(&mut self, now: u64) -> (effect: Effect)
        ensures
            *final(self) == old(self).after_toggle(now),
            effect == if old(self).clock.playing {
                Effect::StopAudio
            } else {
                Effect::StartAudio
            },
            old(self).wf() ==> final(self).wf(),
    {
        if self.clock.playing {
            self.stop()
        } else {
            self.play(now)
        }
    }

    /// Turns looping on or off.
    pub fn toggle_loop(&mut self)
        ensures
            *final(self) == (Player {
                clock: PlaybackState { looping: !old(self).clock.looping, ..old(self).clock },
                ..*old(self)
            }),
            old(self).wf() ==> final(self).wf(),
    {
        self.clock.toggle_loop();
    }

    /// Brings the player up to `now`. A stopped player stays as it is and
    /// asks for nothing. A player that has reached the end of the file
    /// begins again where it loops and stops where it does not. Otherwise
    /// the position moves on, the meter takes the reading there, and the
    /// status of the player is to be published.
    pub fn tick(&mut self, now: u64) -> (effect: Effect)
        requires
            old(self).beats_per_bar >= 1,
        ensures
            *final(self) == old(self).after_tick(now),
            effect == old(self).effect_of_tick(now),
            old(self).wf() ==> final(self).wf(),
    {
        let duration: u64 = self.audio_duration;
        match self.clock.tick(now, duration) {
            Step::Idle => Effect::Nothing,
            Step::Restarted => Effect::StartAudio,
            Step::Ended => {
                self.meter.silence();
                Effect::StopAudio
            },
            Step::Advanced => {
                let position: u64 = self.clock.position;
                self.meter.update(position);
                Effect::Publish(self.status())
            },
        }
    }

    /// The bar at the present position, counted from one.
    pub fn current_bar(&self) -> (bar: u64)
        requires
            self.beats_per_bar >= 1,
        ensures
            bar == self.bar(),
            bar >= 1,
            self.project.bpm_milli == 0 ==> bar == 1,
    {
        bar_beat(self.clock.position, self.project.bpm_milli, self.beats_per_bar).0
    }

    /// The beat within the bar at the present position, counted from one.
    pub fn current_beat(&self) -> (beat: u32)
        requires
            self.beats_per_bar >= 1,
        ensures
            beat == self.beat(),
            1 <= beat <= self.beats_per_bar,
            self.project.bpm_milli == 0 ==> beat == 1,
    {
        bar_beat(self.clock.position, self.project.bpm_milli, self.beats_per_bar).1
    }

    /// The status of the player as it is.
    pub fn status(&self) -> (s: PlayerStatus)
        requires
            self.beats_per_bar >= 1,
        ensures
            s == self.snapshot(),
    {
        PlayerStatus {
            playing: self.clock.playing,
            position_nanos: self.clock.position,
            bar: self.current_bar(),
            beat: self.current_beat(),
            bpm_milli: self.project.bpm_milli,
            time_sig: self.project.time_sig.clone(),
            level_l: self.meter.current_l,
            level_r: self.meter.current_r,
            file: self.audio_file.clone(),
        }
    }
}

/// Stopping twice leaves the player as stopping once does: at zero, not
/// playing, its meter silent.
pub proof fn law_stop_twice_is_stop(p: Player)
    ensures
        p.after_stop().after_stop() == p.after_stop(),
        p.after_stop().clock.position == 0,
        !p.after_stop().clock.playing,
        p.after_stop().meter.current_l == 0 && p.after_stop().meter.current_r == 0,
{
}

/// A player that reaches the end of its file while looping begins again
/// from zero and asks for the sound to start over.
pub proof fn law_loop_wraps(p: Player, now: u64)
    requires
        p.wf(),
        p.clock.playing,
        p.clock.looping,
        p.clock.position_at(now) >= p.audio_duration,
    ensures
        p.after_tick(now).clock.playing,
        p.after_tick(now).clock.position == 0,
        p.after_tick(now).clock.play_started == Some(now),
        p.effect_of_tick(now) == Effect::StartAudio,
{
}

/// A player that reaches the end of its file without looping stops, asks
/// for the sound to halt, and asks for nothing at any later tick.
pub proof fn law_end_halts_once(p: Player, now: u64, later: u64)
    requires
        p.wf(),
        p.clock.playing,
        !p.clock.looping,
        p.clock.position_at(now) >= p.audio_duration,
    ensures
        p.after_tick(now) == p.after_stop(),
        p.effect_of_tick(now) == Effect::StopAudio,
        p.after_tick(now).after_tick(later) == p.after_tick(now),
        p.after_tick(now).effect_of_tick(later) == Effect::Nothing,
{
}

/// The bar and the beat that a player reports are at least one, and the
/// beat is at most the beats in a bar.
pub proof fn law_bar_and_beat_in_range(p: Player)
    requires
        p.beats_per_bar >= 1,
    ensures
        p.bar() >= 1,
        1 <= p.beat() <= p.beats_per_bar,
        p.project.bpm_milli == 0 ==> p.bar() == 1 && p.beat() == 1,
{
    crate::tempo::lemma_bar_beat_in_range(
        p.clock.position as nat,
        p.project.bpm_milli as nat,
        p.beats_per_bar as nat,
    );
}

} // verus!
