use player::tempo::{bar_beat, parse_beats_per_bar, BEAT_UNIT, DEFAULT_BEATS_PER_BAR};

const SECOND: u64 = 1_000_000_000;

#[test]
fn bar_beat_two_and_a_half_seconds_at_120() {
    // 2.5 s at 120 beats per minute is beat 5: bar 2, beat 2 in 4/4.
    assert_eq!(bar_beat(2 * SECOND + SECOND / 2, 120_000, 4), (2, 2));
}

#[test]
fn bar_beat_undefined_tempo_is_one_one() {
    assert_eq!(bar_beat(0, 0, 4), (1, 1));
    assert_eq!(bar_beat(2 * SECOND + SECOND / 2, 0, 4), (1, 1));
    assert_eq!(bar_beat(u64::MAX, 0, 3), (1, 1));
    assert_eq!(bar_beat(17 * SECOND, 0, 1), (1, 1));
}

#[test]
fn bar_beat_starts_at_one_one() {
    assert_eq!(bar_beat(0, 120_000, 4), (1, 1));
    assert_eq!(bar_beat(0, 1, 7), (1, 1));
}

#[test]
fn bar_beat_turns_over_on_the_beat() {
    // At 120 beats per minute a beat lasts half a second.
    assert_eq!(bar_beat(SECOND / 2 - 1, 120_000, 4), (1, 1));
    assert_eq!(bar_beat(SECOND / 2, 120_000, 4), (1, 2));
    assert_eq!(bar_beat(2 * SECOND - 1, 120_000, 4), (1, 4));
    assert_eq!(bar_beat(2 * SECOND, 120_000, 4), (2, 1));
}

#[test]
fn bar_beat_in_three_four() {
    // 60 beats per minute: one beat each second.
    assert_eq!(bar_beat(2 * SECOND, 60_000, 3), (1, 3));
    assert_eq!(bar_beat(3 * SECOND, 60_000, 3), (2, 1));
    assert_eq!(bar_beat(10 * SECOND, 60_000, 3), (4, 2));
}

#[test]
fn bar_beat_fractional_tempo() {
    // 90.5 beats per minute: beat 1 begins at 60/90.5 s = 662983425.41.. ns.
    assert_eq!(bar_beat(662_983_425, 90_500, 4), (1, 1));
    assert_eq!(bar_beat(662_983_426, 90_500, 4), (1, 2));
}

#[test]
fn bar_beat_one_beat_per_bar() {
    assert_eq!(bar_beat(5 * SECOND, 60_000, 1), (6, 1));
}

#[test]
fn bar_beat_at_the_largest_inputs() {
    let beats = (u64::MAX as u128 * u32::MAX as u128 / BEAT_UNIT as u128) as u64;
    assert_eq!(beats, 1_320_469_374_930_293);
    assert_eq!(bar_beat(u64::MAX, u32::MAX, 1), (beats + 1, 1));
    let (bar, beat) = bar_beat(u64::MAX, u32::MAX, u32::MAX);
    assert_eq!(bar, beats / u32::MAX as u64 + 1);
    assert_eq!(beat as u64, beats % u32::MAX as u64 + 1);
}

#[test]
fn bar_beat_stays_in_range() {
    let tempos = [1u32, 999, 60_000, 120_000, 187_500, u32::MAX];
    let bars = [1u32, 2, 3, 4, 7, 12];
    let mut position: u64 = 0;
    while position < 400 * SECOND {
        for bpm in tempos {
            for per_bar in bars {
                let (bar, beat) = bar_beat(position, bpm, per_bar);
                assert!(bar >= 1);
                assert!(1 <= beat && beat <= per_bar);
            }
        }
        position += 7_654_321_987;
    }
}

#[test]
fn beats_per_bar_common_signatures() {
    assert_eq!(parse_beats_per_bar("4/4"), 4);
    assert_eq!(parse_beats_per_bar("3/4"), 3);
    assert_eq!(parse_beats_per_bar("6/8"), 6);
    assert_eq!(parse_beats_per_bar("12/8"), 12);
}

#[test]
fn beats_per_bar_defaults_to_four() {
    assert_eq!(DEFAULT_BEATS_PER_BAR, 4);
    assert_eq!(parse_beats_per_bar(""), 4);
    assert_eq!(parse_beats_per_bar("abc"), 4);
    assert_eq!(parse_beats_per_bar("/4"), 4);
    assert_eq!(parse_beats_per_bar(" 3/4"), 4);
    assert_eq!(parse_beats_per_bar("3 /4"), 4);
    assert_eq!(parse_beats_per_bar("-3/4"), 4);
    assert_eq!(parse_beats_per_bar("+"), 4);
    assert_eq!(parse_beats_per_bar("+/4"), 4);
    assert_eq!(parse_beats_per_bar("++3/4"), 4);
    assert_eq!(parse_beats_per_bar("3.5/4"), 4);
    assert_eq!(parse_beats_per_bar("\u{663}/4"), 4);
}

#[test]
fn beats_per_bar_zero_numerator_is_four() {
    assert_eq!(parse_beats_per_bar("0/4"), 4);
    assert_eq!(parse_beats_per_bar("000"), 4);
    assert_eq!(parse_beats_per_bar("+0/8"), 4);
}

#[test]
fn beats_per_bar_reads_only_the_numerator() {
    assert_eq!(parse_beats_per_bar("5"), 5);
    assert_eq!(parse_beats_per_bar("7/"), 7);
    assert_eq!(parse_beats_per_bar("9/x"), 9);
    assert_eq!(parse_beats_per_bar("3/4/5"), 3);
    assert_eq!(parse_beats_per_bar("+7/8"), 7);
    assert_eq!(parse_beats_per_bar("007/4"), 7);
}

#[test]
fn beats_per_bar_at_the_edge_of_32_bits() {
    assert_eq!(parse_beats_per_bar("4294967295/4"), u32::MAX);
    assert_eq!(parse_beats_per_bar("4294967296/4"), 4);
    assert_eq!(parse_beats_per_bar("00000000000000000000000000000000000000009/4"), 9);
    assert_eq!(parse_beats_per_bar("99999999999999999999999999999999999999999/4"), 4);
    assert_eq!(parse_beats_per_bar("99999999999999999999x/4"), 4);
}

#[test]
fn beats_per_bar_agrees_with_the_standard_parser() {
    let cases = ["4/4", "+12/8", "0017", "x", "", "4294967295", "4294967296", "1/2/3", "-1/4"];
    for text in cases {
        let field = text.split('/').next().unwrap_or("");
        let expected = match field.parse::<u32>() {
            Ok(n) if n > 0 => n,
            _ => 4,
        };
        assert_eq!(parse_beats_per_bar(text), expected);
    }
}
