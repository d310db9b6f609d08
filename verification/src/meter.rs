//! The level meter: loudness per time window, computed once and then read
//! by elapsed time.
//!
//! A level is the root mean square of the amplitudes of one channel over
//! one window, rounded down, in units of 2^-31 of full scale.

use vstd::prelude::*;
use vstd::arithmetic::div_mod::lemma_fundamental_div_mod_converse;
use crate::error::LoadError;
use crate::root::{floor_sqrt, isqrt, lemma_floor_sqrt_bounded};
use crate::wav::{decode, wav_signal, SampleData, Signal, Waveform};

verus! {

/// The level of a signal that stays at full scale.
pub const FULL_SCALE: u32 = 0x8000_0000;

/// The length of a metering window where none is asked for, in
/// milliseconds.
pub const DEFAULT_CHUNK_MS: u32 = 50;

/// Nanoseconds in one millisecond.
pub const NANOS_PER_MILLI: u64 = 1_000_000;

impl Signal {
    /// The number of samples from one frame to the next when frames are
    /// counted: the channel count, and one where no channel is declared.
    pub open spec fn stride(self) -> nat {
        if self.channels == 0 {
            1
        } else {
            self.channels
        }
    }

    /// The number of whole frames.
    pub open spec fn frames(self) -> nat {
        self.amplitudes.len() / self.stride()
    }

    /// The amplitude of frame `f` on one side: the first channel on the
    /// left, the second on the right, and the first on both sides where
    /// there is no second.
    pub open spec fn side(self, right: bool, f: int) -> int {
        if right && self.channels > 1 {
            self.amplitudes[f * self.channels + 1]
        } else {
            self.amplitudes[f * self.channels]
        }
    }

    /// The sum of the squared amplitudes of the frames from `lo` up to,
    /// not including, `hi`.
    pub open spec fn energy(self, right: bool, lo: int, hi: int) -> int
        decreases hi - lo,
    {
        if hi <= lo {
            0
        } else {
            self.energy(right, lo, hi - 1) + self.side(right, hi - 1) * self.side(right, hi - 1)
        }
    }

    /// The root mean square over the frames from `lo` up to `hi`, rounded
    /// down.
    pub open spec fn rms(self, right: bool, lo: int, hi: int) -> nat {
        floor_sqrt((self.energy(right, lo, hi) / (hi - lo)) as nat)
    }

    /// The number of frames in a window of `chunk_ms` milliseconds.
    pub open spec fn window(self, chunk_ms: nat) -> nat {
        self.sample_rate * chunk_ms / 1000
    }

    /// The number of windows that cover all frames: the frame count
    /// divided by the window, rounded up.
    pub open spec fn chunks(self, chunk_ms: nat) -> nat {
        let w = self.window(chunk_ms);
        if w == 0 {
            0
        } else {
            ((self.frames() + w - 1) / (w as int)) as nat
        }
    }

    /// The first frame after window `k`; the last window may be short.
    pub open spec fn chunk_end(self, chunk_ms: nat, k: int) -> int {
        let w = self.window(chunk_ms);
        if (k + 1) * w <= self.frames() {
            (k + 1) * w
        } else {
            self.frames() as int
        }
    }

    /// The level of window `k` on one side.
    pub open spec fn chunk_level(self, right: bool, chunk_ms: nat, k: int) -> nat {
        self.rms(right, k * self.window(chunk_ms), self.chunk_end(chunk_ms, k))
    }

    /// No window of `chunk_ms` milliseconds can cover the frames: it holds
    /// no frame though there are frames.
    pub open spec fn uncoverable(self, chunk_ms: nat) -> bool {
        self.window(chunk_ms) == 0 && self.frames() > 0
    }

    /// The number of windows is the least that covers all frames: that
    /// many windows hold every frame, and one fewer would not.
    pub proof fn law_chunks_is_ceiling(self, chunk_ms: nat)
        requires
            self.window(chunk_ms) > 0,
        ensures
            self.chunks(chunk_ms) * self.window(chunk_ms) >= self.frames(),
            self.frames() > 0 ==> (self.chunks(chunk_ms) - 1) * self.window(chunk_ms)
                < self.frames(),
            self.frames() == 0 ==> self.chunks(chunk_ms) == 0,
    {
        let w = self.window(chunk_ms) as int;
        let x = self.frames() as int + w - 1;
        vstd::arithmetic::div_mod::lemma_fundamental_div_mod(x, w);
        vstd::arithmetic::div_mod::lemma_mod_bound(x, w);
        let q = x / w;
        assert(w * q == q * w) by (nonlinear_arith);
        assert((q - 1) * w == q * w - w) by (nonlinear_arith);
        if self.frames() == 0 {
            lemma_fundamental_div_mod_converse(x, w, 0, x);
        }
        assert(q >= 0) by (nonlinear_arith)
            requires
                x >= 0,
                w > 0,
                q == x / w,
        ;
    }

    /// Both samples of every frame lie inside the signal.
    pub proof fn lemma_frame_inside(self, f: int)
        requires
            0 <= f < self.frames(),
        ensures
            0 <= f * self.channels < self.amplitudes.len(),
            self.channels > 1 ==> f * self.channels + 1 < self.amplitudes.len(),
    {
        let c = self.stride() as int;
        let n = self.amplitudes.len() as int;
        assert((n / c) * c <= n) by (nonlinear_arith)
            requires
                c > 0,
                n >= 0,
        ;
        assert((f + 1) * c <= (n / c) * c) by (nonlinear_arith)
            requires
                f + 1 <= n / c,
                c > 0,
        ;
        assert((f + 1) * c == f * c + c) by (nonlinear_arith);
        assert(0 <= f * self.channels) by (nonlinear_arith)
            requires
                0 <= f,
        ;
        if self.channels == 0 {
            assert(f * self.channels == 0) by (nonlinear_arith)
                requires
                    self.channels == 0,
            ;
        }
    }

    /// The energy of a span is at most full scale squared for each frame.
    pub proof fn lemma_energy_bounded(self, right: bool, lo: int, hi: int)
        requires
            0 <= lo <= hi <= self.frames(),
            forall|i: int|
                0 <= i < self.amplitudes.len() ==> -0x8000_0000 <= #[trigger] self.amplitudes[i]
                    <= 0x8000_0000,
        ensures
            0 <= self.energy(right, lo, hi) <= (hi - lo) * 0x4000_0000_0000_0000,
        decreases hi - lo,
    {
        if hi > lo {
            self.lemma_energy_bounded(right, lo, hi - 1);
            self.lemma_frame_inside(hi - 1);
            let a = self.side(right, hi - 1);
            assert(0 <= a * a <= 0x4000_0000_0000_0000) by (nonlinear_arith)
                requires
                    -0x8000_0000 <= a <= 0x8000_0000,
            ;
            assert((hi - lo) * 0x4000_0000_0000_0000 == (hi - 1 - lo) * 0x4000_0000_0000_0000
                + 0x4000_0000_0000_0000) by (nonlinear_arith);
        }
    }
}

/// Loudness per window for the left and the right side, and the reading
/// that was taken last.
#[derive(Debug)]
pub struct LevelMeter {
    /// The level of each window on the left.
    pub levels_l: Vec<u32>,
    /// The level of each window on the right.
    pub levels_r: Vec<u32>,
    /// The length of a window in milliseconds.
    pub chunk_ms: u32,
    /// The reading on the left.
    pub current_l: u32,
    /// The reading on the right.
    pub current_r: u32,
}

/// The root mean square of one side of `wave` over the frames from `lo` up
/// to `hi`, rounded down.
fn span_level(wave: &Waveform, right: bool, lo: usize, hi: usize) -> (level: u32)
    requires
        lo < hi <= wave@.frames(),
    ensures
        level == wave@.rms(right, lo as int, hi as int),
        level <= FULL_SCALE,
{
    let ghost signal = wave@;
    let channels: usize = wave.header.channels as usize;
    let total: usize = wave.samples.len();
    let mut sum: u128 = 0;
    let mut f: usize = lo;
    assert forall|i: int| 0 <= i < signal.amplitudes.len() implies -0x8000_0000
        <= #[trigger] signal.amplitudes[i] <= 0x8000_0000 by {
        match wave.samples {
            SampleData::Narrow(v) => {},
            SampleData::Wide(v) => {},
        }
    }
    while f < hi
        invariant
            lo <= f <= hi <= signal.frames(),
            signal == wave@,
            channels == wave.header.channels,
            total == signal.amplitudes.len(),
            sum == signal.energy(right, lo as int, f as int),
            forall|i: int|
                0 <= i < signal.amplitudes.len() ==> -0x8000_0000 <= #[trigger] signal.amplitudes[i]
                    <= 0x8000_0000,
        decreases hi - f,
    {
        proof {
            signal.lemma_frame_inside(f as int);
            signal.lemma_energy_bounded(right, lo as int, f as int);
            signal.lemma_energy_bounded(right, lo as int, f + 1);
            assert((f + 1 - lo) * 0x4000_0000_0000_0000 <= 0x1_0000_0000_0000_0000
                * 0x4000_0000_0000_0000) by (nonlinear_arith)
                requires
                    f + 1 - lo <= 0x1_0000_0000_0000_0000,
            ;
        }
        let base: usize = f * channels;
        let a: i64 = if right && channels > 1 {
            wave.samples.amplitude(base + 1)
        } else {
            wave.samples.amplitude(base)
        };
        assert(0 <= a * a <= 0x4000_0000_0000_0000) by (nonlinear_arith)
            requires
                -0x8000_0000 <= a <= 0x8000_0000,
        ;
        let square: i64 = a * a;
        sum = sum + square as u128;
        f += 1;
    }
    let count: u128 = (hi - lo) as u128;
    let mean: u128 = sum / count;
    proof {
        signal.lemma_energy_bounded(right, lo as int, hi as int);
        assert(sum / count <= 0x4000_0000_0000_0000) by (nonlinear_arith)
            requires
                0 <= sum <= count * 0x4000_0000_0000_0000,
                count > 0,
        ;
        assert(0x4000_0000_0000_0000 == 0x8000_0000nat * 0x8000_0000nat) by (nonlinear_arith);
    }
    let root: u64 = isqrt(mean);
    proof {
        lemma_floor_sqrt_bounded(mean as nat, root as nat, 0x8000_0000);
    }
    root as u32
}

impl LevelMeter {
    /// The two sides have a level for the same windows, no level and no
    /// reading exceeds full scale, and a meter whose window has no length
    /// holds no level.
    pub open spec fn wf(&self) -> bool {
        &&& self.levels_l@.len() == self.levels_r@.len()
        &&& self.chunk_ms == 0 ==> self.levels_l@.len() == 0
        &&& forall|k: int| 0 <= k < self.levels_l@.len() ==> #[trigger] self.levels_l@[k] <= FULL_SCALE
        &&& forall|k: int| 0 <= k < self.levels_r@.len() ==> #[trigger] self.levels_r@[k] <= FULL_SCALE
        &&& self.current_l <= FULL_SCALE
        &&& self.current_r <= FULL_SCALE
    }

    /// The meter holds, for each window of `signal` in order, its level on
    /// either side, and nothing else.
    pub open spec fn measures(&self, signal: Signal) -> bool {
        &&& self.levels_l@.len() == signal.chunks(self.chunk_ms as nat)
        &&& self.levels_r@.len() == signal.chunks(self.chunk_ms as nat)
        &&& forall|k: int|
            0 <= k < signal.chunks(self.chunk_ms as nat) ==> #[trigger] self.levels_l@[k]
                == signal.chunk_level(false, self.chunk_ms as nat, k)
        &&& forall|k: int|
            0 <= k < signal.chunks(self.chunk_ms as nat) ==> #[trigger] self.levels_r@[k]
                == signal.chunk_level(true, self.chunk_ms as nat, k)
    }

    /// The length of one window in nanoseconds.
    pub open spec fn span(&self) -> nat {
        self.chunk_ms as nat * NANOS_PER_MILLI as nat
    }

    /// The index of the window that holds `position`, counted in
    /// nanoseconds from the start.
    pub open spec fn index_at(&self, position: nat) -> int {
        position as int / self.span() as int
    }

    /// What the meter reads at `position`: the levels of the window that
    /// holds it, and silence on a side that has no such window.
    pub open spec fn reading_at(&self, position: nat) -> (u32, u32) {
        let k = self.index_at(position);
        (
            if self.span() > 0 && k < self.levels_l@.len() {
                self.levels_l@[k]
            } else {
                0
            },
            if self.span() > 0 && k < self.levels_r@.len() {
                self.levels_r@[k]
            } else {
                0
            },
        )
    }

    /// Measures `wave` in windows of `chunk_ms` milliseconds. Fails with
    /// `EmptyWindow` exactly where the window holds no frame though the
    /// wave has frames. The meter that comes back has one level per
    /// window on either side and reads silence.
    pub fn from_waveform(wave: &Waveform, chunk_ms: u32) -> (r: Result<LevelMeter, LoadError>)
        ensures
            match r {
                Ok(m) => {
                    &&& !wave@.uncoverable(chunk_ms as nat)
                    &&& m.wf()
                    &&& m.chunk_ms == chunk_ms
                    &&& m.measures(wave@)
                    &&& m.current_l == 0
                    &&& m.current_r == 0
                },
                Err(e) => e == LoadError::EmptyWindow && wave@.uncoverable(chunk_ms as nat),
            },
    {
        let ghost signal = wave@;
        let ghost ms = chunk_ms as nat;
        let channels: usize = wave.header.channels as usize;
        let stride: usize = if channels == 0 {
            1
        } else {
            channels
        };
        let frames: usize = wave.samples.len() / stride;
        assert(wave.header.sample_rate * chunk_ms <= 0xffff_ffff * 0xffff_ffff) by (nonlinear_arith)
            requires
                wave.header.sample_rate <= 0xffff_ffff,
                chunk_ms <= 0xffff_ffff,
        ;
        let window: u64 = (wave.header.sample_rate as u64) * (chunk_ms as u64) / 1000;
        assert(window == signal.window(ms));
        assert(frames == signal.frames());
        if window == 0 && frames > 0 {
            return Err(LoadError::EmptyWindow);
        }
        let mut levels_l: Vec<u32> = Vec::new();
        let mut levels_r: Vec<u32> = Vec::new();
        let mut i: usize = 0;
        proof {
            if window > 0 {
                lemma_fundamental_div_mod_converse(window as int - 1, window as int, 0, window as int - 1);
            }
        }
        while i < frames
            invariant
                signal == wave@,
                ms == chunk_ms,
                window == signal.window(ms),
                frames == signal.frames(),
                frames > 0 ==> window > 0,
                i <= frames,
                levels_l@.len() == levels_r@.len(),
                i < frames ==> i == levels_l@.len() * window,
                i == frames ==> levels_l@.len() == signal.chunks(ms),
                forall|k: int|
                    0 <= k < levels_l@.len() ==> #[trigger] levels_l@[k] == signal.chunk_level(
                        false,
                        ms,
                        k,
                    ) && levels_l@[k] <= FULL_SCALE,
                forall|k: int|
                    0 <= k < levels_r@.len() ==> #[trigger] levels_r@[k] == signal.chunk_level(
                        true,
                        ms,
                        k,
                    ) && levels_r@[k] <= FULL_SCALE,
            decreases frames - i,
        {
            let ghost k = levels_l@.len() as int;
            let end: usize = if window >= (frames - i) as u64 {
                frames
            } else {
                i + window as usize
            };
            proof {
                assert((k + 1) * window == k * window + window) by (nonlinear_arith);
                assert(end == signal.chunk_end(ms, k));
                if end == frames {
                    let w = window as int;
                    let r = frames + w - 1 - (k + 1) * w;
                    assert(frames + w - 1 == (k + 1) * w + r);
                    lemma_fundamental_div_mod_converse(frames + w - 1, w, k + 1, r);
                }
            }
            let left: u32 = span_level(wave, false, i, end);
            let right: u32 = span_level(wave, true, i, end);
            levels_l.push(left);
            levels_r.push(right);
            i = end;
        }
        Ok(LevelMeter { levels_l, levels_r, chunk_ms, current_l: 0, current_r: 0 })
    }

    /// Decodes a WAVE image and measures it in windows of `chunk_ms`
    /// milliseconds. Fails with `Undecodable` exactly where the decoder
    /// refuses the image, and with `EmptyWindow` exactly where it accepts
    /// it and no window can cover its frames.
    pub fn from_wav(bytes: &[u8], chunk_ms: u32) -> (r: Result<LevelMeter, LoadError>)
        ensures
            match wav_signal(bytes@) {
                None => r == Err::<LevelMeter, LoadError>(LoadError::Undecodable),
                Some(signal) => if signal.uncoverable(chunk_ms as nat) {
                    r == Err::<LevelMeter, LoadError>(LoadError::EmptyWindow)
                } else {
                    &&& r matches Ok(m)
                    &&& m.wf()
                    &&& m.chunk_ms == chunk_ms
                    &&& m.measures(signal)
                    &&& m.current_l == 0
                    &&& m.current_r == 0
                },
            },
    {
        match decode(bytes) {
            Err(e) => Err(e),
            Ok(wave) => LevelMeter::from_waveform(&wave, chunk_ms),
        }
    }

    /// Reads the levels at `position`, in nanoseconds from the start.
    /// Positions at or after the end of the last window read silence.
    pub fn lookup(&self, position: u64) -> (r: (u32, u32))
        ensures
            r == self.reading_at(position as nat),
            position >= self.levels_l@.len() * self.span() ==> r.0 == 0,
            position >= self.levels_r@.len() * self.span() ==> r.1 == 0,
    {
        proof {
            self.lemma_silent_past_end(position as nat);
        }
        if self.chunk_ms == 0 {
            return (0, 0);
        }
        let span: u64 = (self.chunk_ms as u64) * NANOS_PER_MILLI;
        let k: u64 = position / span;
        let left: u32 = if k < self.levels_l.len() as u64 {
            self.levels_l[k as usize]
        } else {
            0
        };
        let right: u32 = if k < self.levels_r.len() as u64 {
            self.levels_r[k as usize]
        } else {
            0
        };
        (left, right)
    }

    /// A position is at or after the end of the last window exactly when
    /// its index is past the last level, and the meter then reads silence.
    pub proof fn lemma_silent_past_end(&self, position: nat)
        ensures
            self.span() > 0 ==> (position >= self.levels_l@.len() * self.span()
                <==> self.index_at(position) >= self.levels_l@.len()),
            self.span() > 0 ==> (position >= self.levels_r@.len() * self.span()
                <==> self.index_at(position) >= self.levels_r@.len()),
            position >= self.levels_l@.len() * self.span() ==> self.reading_at(position).0 == 0,
            position >= self.levels_r@.len() * self.span() ==> self.reading_at(position).1 == 0,
    {
        let s = self.span() as int;
        let p = position as int;
        if s > 0 {
            let nl = self.levels_l@.len() as int;
            let nr = self.levels_r@.len() as int;
            assert((p >= nl * s) <==> (p / s >= nl)) by (nonlinear_arith)
                requires
                    s > 0,
                    p >= 0,
                    nl >= 0,
            ;
            assert((p >= nr * s) <==> (p / s >= nr)) by (nonlinear_arith)
                requires
                    s > 0,
                    p >= 0,
                    nr >= 0,
            ;
        }
    }

    /// The meter after it took the reading at `position`.
    pub open spec fn updated(self, position: u64) -> LevelMeter {
        LevelMeter {
            current_l: self.reading_at(position as nat).0,
            current_r: self.reading_at(position as nat).1,
            ..self
        }
    }

    /// Takes the reading at `position`, in nanoseconds from the start.
    pub fn update(&mut self, position: u64)
        ensures
            *final(self) == old(self).updated(position),
            old(self).wf() ==> final(self).wf(),
    {
        let (left, right) = self.lookup(position);
        self.current_l = left;
        self.current_r = right;
    }

    /// Puts the reading back to silence.
    pub fn silence(&mut self)
        ensures
            *final(self) == old(self).silenced(),
            old(self).wf() ==> final(self).wf(),
    {
        self.current_l = 0;
        self.current_r = 0;
    }

    /// The meter with its reading put back to silence.
    pub open spec fn silenced(self) -> LevelMeter {
        LevelMeter { current_l: 0, current_r: 0, ..self }
    }
}

} // verus!
