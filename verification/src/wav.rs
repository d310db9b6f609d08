//! Decoding a RIFF/WAVE image held in memory.
//!
//! The bytes are parsed by the `hound` crate. What it makes of an image is
//! not specified here: the three functions `wav_header`, `wav_samples_i16`
//! and `wav_samples_i32` only name its results, and everything that this
//! crate does with them is stated over those names.

use vstd::prelude::*;
use crate::clock::NANOS_PER_SECOND;
use crate::error::LoadError;

verus! {

#[verifier::external_type_specification]
#[verifier::external_body]
pub struct ExHoundError(hound::Error);

/// What the header of a WAVE image declares.
#[derive(Clone, Copy, Debug, PartialEq, Eq, Structural)]
pub struct WavHeader {
    /// Number of interleaved channels.
    pub channels: u16,
    /// Frames per second.
    pub sample_rate: u32,
    /// Significant bits of one sample.
    pub bits_per_sample: u16,
    /// Number of samples in the data chunk, all channels together.
    pub sample_count: u32,
}

/// The header that `hound` reads from `bytes`, or `None` where it refuses
/// them.
pub uninterp spec fn wav_header(bytes: Seq<u8>) -> Option<WavHeader>;

/// The items that `hound` yields when the samples of `bytes` are read as
/// 16-bit integers; `None` stands for an item that it could not read.
pub uninterp spec fn wav_samples_i16(bytes: Seq<u8>) -> Seq<Option<i16>>;

/// The items that `hound` yields when the samples of `bytes` are read as
/// 32-bit integers; `None` stands for an item that it could not read.
pub uninterp spec fn wav_samples_i32(bytes: Seq<u8>) -> Seq<Option<i32>>;

/// Opens `bytes` with `hound::WavReader::new` and reports the fields of
/// `WavReader::spec` together with `WavReader::len`. The contract only
/// binds the outcome to `wav_header`: the call succeeds exactly where
/// `wav_header` is `Some`, and then returns that header.
#[verifier::external_body]
fn read_header(bytes: &[u8]) -> (r: Result<WavHeader, hound::Error>)
    ensures
        r is Ok <==> wav_header(bytes@) is Some,
        r matches Ok(h) ==> wav_header(bytes@) == Some(h),
{
    let reader = hound::WavReader::new(std::io::Cursor::new(bytes))?;
    let spec = reader.spec();
    Ok(WavHeader {
        channels: spec.channels,
        sample_rate: spec.sample_rate,
        bits_per_sample: spec.bits_per_sample,
        sample_count: reader.len(),
    })
}

/// Runs `hound::WavReader::into_samples::<i16>` over `bytes` and collects
/// every item, failed ones as `None`; an image that does not open yields
/// nothing. The contract only binds the outcome to `wav_samples_i16`.
#[verifier::external_body]
fn read_samples_i16(bytes: &[u8]) -> (r: Vec<Option<i16>>)
    ensures
        r@ == wav_samples_i16(bytes@),
{
    match hound::WavReader::new(std::io::Cursor::new(bytes)) {
        Ok(reader) => reader.into_samples::<i16>().map(|s| s.ok()).collect(),
        Err(_) => Vec::new(),
    }
}

/// Runs `hound::WavReader::into_samples::<i32>` over `bytes` and collects
/// every item, failed ones as `None`; an image that does not open yields
/// nothing. The contract only binds the outcome to `wav_samples_i32`.
#[verifier::external_body]
fn read_samples_i32(bytes: &[u8]) -> (r: Vec<Option<i32>>)
    ensures
        r@ == wav_samples_i32(bytes@),
{
    match hound::WavReader::new(std::io::Cursor::new(bytes)) {
        Ok(reader) => reader.into_samples::<i32>().map(|s| s.ok()).collect(),
        Err(_) => Vec::new(),
    }
}

/// The items of `items` that were read, in their order.
pub open spec fn kept<T>(items: Seq<Option<T>>) -> Seq<T>
    decreases items.len(),
{
    if items.len() == 0 {
        Seq::empty()
    } else {
        match items.last() {
            Some(v) => kept(items.drop_last()).push(v),
            None => kept(items.drop_last()),
        }
    }
}

/// Drops the items that could not be read.
pub fn keep_read<T: Copy>(items: &Vec<Option<T>>) -> (r: Vec<T>)
    ensures
        r@ == kept(items@),
{
    let mut out: Vec<T> = Vec::new();
    let mut i: usize = 0;
    while i < items.len()
        invariant
            i <= items.len(),
            out@ == kept(items@.take(i as int)),
        decreases items.len() - i,
    {
        proof {
            let next = items@.take(i + 1);
            assert(next.drop_last() == items@.take(i as int));
            assert(next.last() == items@[i as int]);
        }
        match items[i] {
            Some(v) => {
                out.push(v);
            },
            None => {},
        }
        i += 1;
    }
    proof {
        assert(items@.take(i as int) == items@);
    }
    out
}

/// One full-scale step of a 16-bit sample, in the unit of amplitudes.
pub const NARROW_STEP: i64 = 65536;

/// The samples of a file, in the width in which they were read.
#[derive(Debug)]
pub enum SampleData {
    /// Samples of 16 bits and below; full scale is 2^15.
    Narrow(Vec<i16>),
    /// Wider samples; full scale is 2^31.
    Wide(Vec<i32>),
}

impl View for SampleData {
    type V = Seq<int>;

    /// The amplitudes, each in units of 2^-31 of full scale.
    open spec fn view(&self) -> Seq<int> {
        match self {
            SampleData::Narrow(v) => Seq::new(v@.len(), |i: int| v@[i] as int * NARROW_STEP),
            SampleData::Wide(v) => Seq::new(v@.len(), |i: int| v@[i] as int),
        }
    }
}

impl SampleData {
    /// The number of samples.
    pub fn len(&self) -> (n: usize)
        ensures
            n == self@.len(),
    {
        match self {
            SampleData::Narrow(v) => v.len(),
            SampleData::Wide(v) => v.len(),
        }
    }

    /// The amplitude of sample `i`, in units of 2^-31 of full scale.
    pub fn amplitude(&self, i: usize) -> (a: i64)
        requires
            i < self@.len(),
        ensures
            a == self@[i as int],
            -0x8000_0000 <= a <= 0x7fff_ffff,
    {
        match self {
            SampleData::Narrow(v) => (v[i] as i64) * NARROW_STEP,
            SampleData::Wide(v) => v[i] as i64,
        }
    }
}

/// A sound signal as the meter and the clock see it.
pub struct Signal {
    /// Number of interleaved channels.
    pub channels: nat,
    /// Frames per second.
    pub sample_rate: nat,
    /// Number of samples that the header declares.
    pub sample_count: nat,
    /// The samples that were read, in units of 2^-31 of full scale.
    pub amplitudes: Seq<int>,
}

/// A decoded sound file.
#[derive(Debug)]
pub struct Waveform {
    /// What the header declares.
    pub header: WavHeader,
    /// The samples that could be read, channels interleaved.
    pub samples: SampleData,
}

impl View for Waveform {
    type V = Signal;

    open spec fn view(&self) -> Signal {
        Signal {
            channels: self.header.channels as nat,
            sample_rate: self.header.sample_rate as nat,
            sample_count: self.header.sample_count as nat,
            amplitudes: self.samples@,
        }
    }
}

impl Signal {
    /// How long the signal lasts, in nanoseconds: the samples that the
    /// header declares, over the samples per second of all channels. A
    /// signal without a rate never ends.
    pub open spec fn duration(self) -> nat {
        if self.sample_rate * self.channels == 0 {
            u64::MAX as nat
        } else {
            self.sample_count * (NANOS_PER_SECOND as nat) / (self.sample_rate * self.channels)
        }
    }
}

impl Waveform {
    /// How long the waveform lasts, in nanoseconds.
    pub fn duration(&self) -> (d: u64)
        ensures
            d == self@.duration(),
    {
        assert(self.header.sample_rate * self.header.channels <= 0xffff_ffff * 0xffff)
            by (nonlinear_arith)
            requires
                self.header.sample_rate <= 0xffff_ffff,
                self.header.channels <= 0xffff,
        ;
        let rate: u64 = (self.header.sample_rate as u64) * (self.header.channels as u64);
        if rate == 0 {
            return u64::MAX;
        }
        assert(self.header.sample_count * NANOS_PER_SECOND <= 0xffff_ffff * 1_000_000_000)
            by (nonlinear_arith)
            requires
                self.header.sample_count <= 0xffff_ffff,
                NANOS_PER_SECOND == 1_000_000_000,
        ;
        let span: u64 = (self.header.sample_count as u64) * NANOS_PER_SECOND;
        span / rate
    }
}

/// The signal that a WAVE image holds: samples of 16 bits and below are
/// read as 16-bit integers and scaled by 2^16, wider ones are read as
/// 32-bit integers; items that cannot be read are left out.
pub open spec fn wav_signal(bytes: Seq<u8>) -> Option<Signal> {
    match wav_header(bytes) {
        None => None,
        Some(h) => Some(
            Signal {
                channels: h.channels as nat,
                sample_rate: h.sample_rate as nat,
                sample_count: h.sample_count as nat,
                amplitudes: if h.bits_per_sample <= 16 {
                    let read = kept(wav_samples_i16(bytes));
                    Seq::new(read.len(), |i: int| read[i] as int * NARROW_STEP)
                } else {
                    let read = kept(wav_samples_i32(bytes));
                    Seq::new(read.len(), |i: int| read[i] as int)
                },
            },
        ),
    }
}

/// Decodes a WAVE image. Fails with `Undecodable` exactly where the
/// decoder refuses the header; otherwise the waveform holds the header and
/// the signal of the image.
pub fn decode(bytes: &[u8]) -> (r: Result<Waveform, LoadError>)
    ensures
        match r {
            Ok(w) => wav_header(bytes@) == Some(w.header) && wav_signal(bytes@) == Some(w@),
            Err(e) => e == LoadError::Undecodable && wav_header(bytes@) is None,
        },
{
    match read_header(bytes) {
        Err(_) => Err(LoadError::Undecodable),
        Ok(header) => {
            let samples = if header.bits_per_sample <= 16 {
                let items = read_samples_i16(bytes);
                SampleData::Narrow(keep_read(&items))
            } else {
                let items = read_samples_i32(bytes);
                SampleData::Wide(keep_read(&items))
            };
            let wave = Waveform { header, samples };
            proof {
                assert(wav_signal(bytes@).unwrap().amplitudes =~= wave@.amplitudes);
            }
            Ok(wave)
        },
    }
}

} // verus!
