//! Musical time: the beats in a bar, and the bar and beat of a position.

use vstd::prelude::*;
use vstd::string::StringSliceAdditionalSpecFns;

verus! {

/// The beats in a bar where the time signature names none.
pub const DEFAULT_BEATS_PER_BAR: u32 = 4;

/// One beat, in nanoseconds times thousandths of a beat per minute: a
/// minute in nanoseconds, times one thousand.
pub const BEAT_UNIT: u64 = 60_000_000_000_000;

/// The byte `/`, which ends the numerator of a time signature.
pub const SLASH: u8 = 47;

/// The byte `+`, which may stand before the digits.
pub const PLUS: u8 = 43;

/// The byte `0`.
pub const DIGIT_ZERO: u8 = 48;

/// The byte `9`.
pub const DIGIT_NINE: u8 = 57;

/// The index of the first `/` at or after `from`, or the length of
/// `bytes` where there is none.
pub open spec fn slash_from(bytes: Seq<u8>, from: int) -> int
    decreases bytes.len() - from,
{
    if from < 0 || from >= bytes.len() {
        bytes.len() as int
    } else if bytes[from] == SLASH {
        from
    } else {
        slash_from(bytes, from + 1)
    }
}

/// The part of a time signature before its first `/`; all of it where it
/// has none.
pub open spec fn numerator_field(bytes: Seq<u8>) -> Seq<u8> {
    bytes.take(slash_from(bytes, 0))
}

/// Every byte is a decimal digit.
pub open spec fn all_digits(digits: Seq<u8>) -> bool {
    forall|i: int| 0 <= i < digits.len() ==> DIGIT_ZERO <= #[trigger] digits[i] <= DIGIT_NINE
}

/// The number that decimal digits write.
pub open spec fn decimal_value(digits: Seq<u8>) -> nat
    decreases digits.len(),
{
    if digits.len() == 0 {
        0
    } else {
        (decimal_value(digits.drop_last()) * 10 + (digits.last() - DIGIT_ZERO)) as nat
    }
}

/// The field without the `+` that may stand first.
pub open spec fn unsigned_part(field: Seq<u8>) -> Seq<u8> {
    if field.len() > 0 && field[0] == PLUS {
        field.skip(1)
    } else {
        field
    }
}

/// The number that a field writes: one or more decimal digits, with or
/// without a `+` before them, whose value fits 32 bits. Anything else
/// writes no number.
pub open spec fn field_value(field: Seq<u8>) -> Option<u32> {
    let digits = unsigned_part(field);
    if digits.len() > 0 && all_digits(digits) && decimal_value(digits) <= u32::MAX {
        Some(decimal_value(digits) as u32)
    } else {
        None
    }
}

/// The beats in a bar that a time signature gives: its numerator where
/// that is a positive number, and four otherwise.
pub open spec fn beats_per_bar_of(bytes: Seq<u8>) -> u32 {
    match field_value(numerator_field(bytes)) {
        Some(n) => if n > 0 {
            n
        } else {
            DEFAULT_BEATS_PER_BAR
        },
        None => DEFAULT_BEATS_PER_BAR,
    }
}

/// A longer run of digits writes no smaller number.
pub proof fn lemma_decimal_value_grows(digits: Seq<u8>, n: int)
    requires
        0 <= n <= digits.len(),
        all_digits(digits),
    ensures
        decimal_value(digits.take(n)) <= decimal_value(digits),
    decreases digits.len() - n,
{
    if n == digits.len() {
        assert(digits.take(n) == digits);
    } else {
        let longer = digits.take(n + 1);
        assert(longer.drop_last() == digits.take(n));
        assert(longer.last() == digits[n]);
        lemma_decimal_value_grows(digits, n + 1);
    }
}

/// Finds the end of the numerator.
fn find_slash(bytes: &[u8]) -> (cut: usize)
    ensures
        cut == slash_from(bytes@, 0),
        cut <= bytes@.len(),
{
    let mut i: usize = 0;
    while i < bytes.len() && bytes[i] != SLASH
        invariant
            i <= bytes@.len(),
            slash_from(bytes@, 0) == slash_from(bytes@, i as int),
        decreases bytes@.len() - i,
    {
        i += 1;
    }
    i
}

/// Reads the number that the bytes from `start` up to `end` write.
fn read_number(bytes: &[u8], start: usize, end: usize) -> (r: Option<u32>)
    requires
        start <= end <= bytes@.len(),
    ensures
        r == field_value(bytes@.subrange(start as int, end as int)),
{
    let ghost field = bytes@.subrange(start as int, end as int);
    let ghost digits = unsigned_part(field);
    let first: usize = if start < end && bytes[start] == PLUS {
        start + 1
    } else {
        start
    };
    assert(digits == bytes@.subrange(first as int, end as int));
    if first == end {
        return None;
    }
    let mut value: u64 = 0;
    let mut i: usize = first;
    while i < end
        invariant
            start <= first <= i <= end <= bytes@.len(),
            field == bytes@.subrange(start as int, end as int),
            digits == unsigned_part(field),
            digits == bytes@.subrange(first as int, end as int),
            all_digits(digits.take(i - first)),
            value == decimal_value(digits.take(i - first)),
            value <= u32::MAX,
        decreases end - i,
    {
        let b: u8 = bytes[i];
        assert(digits[i - first] == b);
        if b < DIGIT_ZERO || b > DIGIT_NINE {
            return None;
        }
        proof {
            let longer = digits.take(i + 1 - first);
            assert(longer.drop_last() == digits.take(i - first));
            assert(longer.last() == b);
            assert forall|j: int| 0 <= j < longer.len() implies DIGIT_ZERO <= #[trigger] longer[j]
                <= DIGIT_NINE by {
                if j < i - first {
                    assert(longer[j] == digits.take(i - first)[j]);
                }
            }
        }
        value = value * 10 + (b - DIGIT_ZERO) as u64;
        assert(value == decimal_value(digits.take(i + 1 - first)));
        if value > u32::MAX as u64 {
            proof {
                if all_digits(digits) {
                    lemma_decimal_value_grows(digits, i + 1 - first);
                }
            }
            return None;
        }
        i += 1;
    }
    assert(digits.take(end - first) == digits);
    Some(value as u32)
}

/// Reads the beats in a bar from a time signature such as `3/4`: the
/// number before the first `/` where it is positive, and four where the
/// signature gives no such number.
pub fn parse_beats_per_bar(time_sig: &str) -> (n: u32)
    ensures
        n == beats_per_bar_of(time_sig.spec_bytes()),
        n >= 1,
{
    let bytes = time_sig.as_bytes();
    let cut: usize = find_slash(bytes);
    assert(bytes@.subrange(0, cut as int) == numerator_field(bytes@));
    match read_number(bytes, 0, cut) {
        Some(n) => if n > 0 {
            n
        } else {
            DEFAULT_BEATS_PER_BAR
        },
        None => DEFAULT_BEATS_PER_BAR,
    }
}

/// The whole beats that have passed at `position` nanoseconds, at a tempo
/// of `bpm_milli` thousandths of a beat per minute.
pub open spec fn whole_beats(position: nat, bpm_milli: nat) -> nat {
    position * bpm_milli / (BEAT_UNIT as nat)
}

/// The bar at `position`, counted from one; always one where the tempo is
/// undefined.
pub open spec fn bar_of(position: nat, bpm_milli: nat, beats_per_bar: nat) -> nat {
    if bpm_milli == 0 {
        1
    } else {
        whole_beats(position, bpm_milli) / beats_per_bar + 1
    }
}

/// The beat within its bar at `position`, counted from one; always one
/// where the tempo is undefined.
pub open spec fn beat_of(position: nat, bpm_milli: nat, beats_per_bar: nat) -> nat {
    if bpm_milli == 0 {
        1
    } else {
        whole_beats(position, bpm_milli) % beats_per_bar + 1
    }
}

/// Bar and beat never fall below one, and the beat never exceeds the beats
/// in a bar.
pub proof fn lemma_bar_beat_in_range(position: nat, bpm_milli: nat, beats_per_bar: nat)
    requires
        beats_per_bar >= 1,
    ensures
        bar_of(position, bpm_milli, beats_per_bar) >= 1,
        1 <= beat_of(position, bpm_milli, beats_per_bar) <= beats_per_bar,
        bpm_milli == 0 ==> bar_of(position, bpm_milli, beats_per_bar) == 1 && beat_of(
            position,
            bpm_milli,
            beats_per_bar,
        ) == 1,
{
    let beats = whole_beats(position, bpm_milli) as int;
    let n = beats_per_bar as int;
    assert(0 <= beats % n < n && beats / n >= 0) by (nonlinear_arith)
        requires
            beats >= 0,
            n >= 1,
    ;
}

/// The bar and the beat within it at `position` nanoseconds, at a tempo of
/// `bpm_milli` thousandths of a beat per minute; a tempo of zero is
/// undefined and gives bar one, beat one.
pub fn bar_beat(position: u64, bpm_milli: u32, beats_per_bar: u32) -> (r: (u64, u32))
    requires
        beats_per_bar >= 1,
    ensures
        r.0 == bar_of(position as nat, bpm_milli as nat, beats_per_bar as nat),
        r.1 == beat_of(position as nat, bpm_milli as nat, beats_per_bar as nat),
        r.0 >= 1,
        1 <= r.1 <= beats_per_bar,
        bpm_milli == 0 ==> r.0 == 1 && r.1 == 1,
{
    proof {
        lemma_bar_beat_in_range(position as nat, bpm_milli as nat, beats_per_bar as nat);
    }
    if bpm_milli == 0 {
        return (1, 1);
    }
    assert(position * bpm_milli <= 0xffff_ffff_ffff_ffff * 0xffff_ffff) by (nonlinear_arith)
        requires
            position <= 0xffff_ffff_ffff_ffff,
            bpm_milli <= 0xffff_ffff,
    ;
    let scaled: u128 = (position as u128) * (bpm_milli as u128);
    let beats: u64 = (scaled / (BEAT_UNIT as u128)) as u64;
    let per_bar: u64 = beats_per_bar as u64;
    assert(beats / per_bar <= beats) by (nonlinear_arith)
        requires
            per_bar >= 1,
    ;
    let bar: u64 = beats / per_bar + 1;
    let beat: u32 = (beats % per_bar) as u32 + 1;
    (bar, beat)
}

} // verus!
