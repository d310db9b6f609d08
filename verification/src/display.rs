//! What the transport view shows, as numbers: how far a bar is filled, the
//! zone of each of its cells, and the face of the clock.

use vstd::prelude::*;
use crate::meter::FULL_SCALE;

verus! {

/// The factor by which a level is raised before it is shown.
pub const METER_GAIN: u64 = 3;

/// Nanoseconds in a tenth of a second.
pub const NANOS_PER_TENTH: u64 = 100_000_000;

/// One cell of a meter bar.
#[derive(Clone, Copy, Debug, PartialEq, Eq, Structural)]
pub enum MeterCell {
    /// Filled, in the lower three fifths of the bar.
    Low,
    /// Filled, above three fifths and below seventeen twentieths.
    Mid,
    /// Filled, in the top of the bar.
    High,
    /// Not filled.
    Empty,
}

/// The minutes, seconds and tenths of a second that a clock shows.
#[derive(Clone, Copy, Debug, PartialEq, Eq, Structural)]
pub struct ClockFace {
    /// Whole minutes; they run on past an hour.
    pub minutes: u64,
    /// Whole seconds within the minute.
    pub seconds: u64,
    /// Tenths within the second.
    pub tenths: u64,
}

/// The number of cells that `level` fills in a bar of `width` cells: the
/// level is raised threefold, held at full scale, and taken as a part of
/// the width, rounded down.
pub open spec fn meter_fill_of(level: nat, width: nat) -> nat {
    let raised = if METER_GAIN * level > FULL_SCALE {
        FULL_SCALE as nat
    } else {
        METER_GAIN as nat * level
    };
    raised * width / (FULL_SCALE as nat)
}

/// The zone of cell `i` in a bar of `width` cells.
pub open spec fn zone_of(i: nat, width: nat) -> MeterCell {
    if 5 * i < 3 * width {
        MeterCell::Low
    } else if 20 * i < 17 * width {
        MeterCell::Mid
    } else {
        MeterCell::High
    }
}

/// Cell `i` of the bar that shows `level` in `width` cells.
pub open spec fn cell_of(level: nat, width: nat, i: nat) -> MeterCell {
    if i < meter_fill_of(level, width) {
        zone_of(i, width)
    } else {
        MeterCell::Empty
    }
}

/// The face of a clock at `position` nanoseconds.
pub open spec fn face_of(position: nat) -> ClockFace {
    ClockFace {
        minutes: (position / 1_000_000_000 / 60) as u64,
        seconds: (position / 1_000_000_000 % 60) as u64,
        tenths: (position / (NANOS_PER_TENTH as nat) % 10) as u64,
    }
}

/// The number of cells of a progress bar of `width` cells that lie behind
/// `position`, in a file that lasts `duration`: the part of the file that
/// has been played, taken of the width and rounded down; all of the width
/// from the end on, and none in a file without length.
pub open spec fn progress_fill_of(position: nat, duration: nat, width: nat) -> nat {
    if duration == 0 {
        0
    } else if position >= duration {
        width
    } else {
        position * width / duration
    }
}

/// The number of cells that `level` fills in a bar of `width` cells.
pub fn meter_fill(level: u32, width: u16) -> (filled: u16)
    ensures
        filled == meter_fill_of(level as nat, width as nat),
        filled <= width,
{
    let gained: u64 = METER_GAIN * (level as u64);
    let raised: u64 = if gained > FULL_SCALE as u64 {
        FULL_SCALE as u64
    } else {
        gained
    };
    assert(raised * width <= 0x8000_0000 * width) by (nonlinear_arith)
        requires
            raised <= 0x8000_0000,
            width >= 0,
    ;
    let filled: u64 = raised * (width as u64) / (FULL_SCALE as u64);
    filled as u16
}

/// The zone of cell `i` in a bar of `width` cells.
pub fn meter_zone(i: u16, width: u16) -> (zone: MeterCell)
    ensures
        zone == zone_of(i as nat, width as nat),
{
    if 5 * (i as u32) < 3 * (width as u32) {
        MeterCell::Low
    } else if 20 * (i as u32) < 17 * (width as u32) {
        MeterCell::Mid
    } else {
        MeterCell::High
    }
}

/// The cells of the bar that shows `level` in `width` cells, from the
/// lowest up.
pub fn meter_cells(level: u32, width: u16) -> (cells: Vec<MeterCell>)
    ensures
        cells@.len() == width,
        forall|i: int|
            0 <= i < width ==> #[trigger] cells@[i] == cell_of(level as nat, width as nat, i as nat),
{
    let filled: u16 = meter_fill(level, width);
    let mut cells: Vec<MeterCell> = Vec::new();
    let mut i: u16 = 0;
    while i < width
        invariant
            i <= width,
            filled == meter_fill_of(level as nat, width as nat),
            cells@.len() == i,
            forall|j: int|
                0 <= j < i ==> #[trigger] cells@[j] == cell_of(level as nat, width as nat, j as nat),
        decreases width - i,
    {
        let cell = if i < filled {
            meter_zone(i, width)
        } else {
            MeterCell::Empty
        };
        cells.push(cell);
        i += 1;
    }
    cells
}

/// The face of a clock at `position` nanoseconds.
pub fn clock_face(position: u64) -> (face: ClockFace)
    ensures
        face == face_of(position as nat),
        face.seconds < 60,
        face.tenths < 10,
{
    let seconds: u64 = position / 1_000_000_000;
    ClockFace { minutes: seconds / 60, seconds: seconds % 60, tenths: position / NANOS_PER_TENTH % 10 }
}

/// The number of cells of a progress bar of `width` cells that lie behind
/// `position`, in a file that lasts `duration`.
pub fn progress_fill(position: u64, duration: u64, width: u16) -> (filled: u16)
    ensures
        filled == progress_fill_of(position as nat, duration as nat, width as nat),
        filled <= width,
{
    if duration == 0 {
        0
    } else if position >= duration {
        width
    } else {
        assert(position * width <= duration * width) by (nonlinear_arith)
            requires
                position < duration,
                width >= 0,
        ;
        assert(position * width <= 0xffff_ffff_ffff_ffff * 0xffff) by (nonlinear_arith)
            requires
                position <= 0xffff_ffff_ffff_ffff,
                0 <= width <= 0xffff,
        ;
        let scaled: u128 = (position as u128) * (width as u128);
        assert(scaled / (duration as u128) <= width) by (nonlinear_arith)
            requires
                scaled <= duration * width,
                duration > 0,
        ;
        (scaled / (duration as u128)) as u16
    }
}

} // verus!
