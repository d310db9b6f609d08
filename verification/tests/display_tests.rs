use player::display::{
    clock_face, meter_cells, meter_fill, meter_zone, progress_fill, ClockFace, MeterCell,
};
use player::meter::FULL_SCALE;

#[test]
fn meter_fill_raises_the_level_threefold() {
    assert_eq!(meter_fill(0, 10), 0);
    assert_eq!(meter_fill(FULL_SCALE, 10), 10);
    assert_eq!(meter_fill(FULL_SCALE / 3, 30), 29);
    assert_eq!(meter_fill(715_827_883, 30), 30);
    assert_eq!(meter_fill(FULL_SCALE / 6, 30), 14);
    assert_eq!(meter_fill(357_913_941, 40), 19);
    assert_eq!(meter_fill(u32::MAX, u16::MAX), u16::MAX);
    assert_eq!(meter_fill(FULL_SCALE, 0), 0);
}

#[test]
fn meter_zone_thresholds() {
    assert_eq!(meter_zone(0, 10), MeterCell::Low);
    assert_eq!(meter_zone(5, 10), MeterCell::Low);
    assert_eq!(meter_zone(6, 10), MeterCell::Mid);
    assert_eq!(meter_zone(8, 10), MeterCell::Mid);
    assert_eq!(meter_zone(9, 10), MeterCell::High);
    assert_eq!(meter_zone(16, 20), MeterCell::Mid);
    assert_eq!(meter_zone(17, 20), MeterCell::High);
    assert_eq!(meter_zone(u16::MAX, u16::MAX), MeterCell::High);
}

#[test]
fn meter_cells_of_a_full_bar() {
    let cells = meter_cells(FULL_SCALE, 10);
    let low = MeterCell::Low;
    let mid = MeterCell::Mid;
    assert_eq!(cells, vec![low, low, low, low, low, low, mid, mid, mid, MeterCell::High]);
}

#[test]
fn meter_cells_of_a_part_filled_bar() {
    // A sixth of full scale fills half of the bar.
    let cells = meter_cells(FULL_SCALE / 6 + 1, 8);
    let low = MeterCell::Low;
    let empty = MeterCell::Empty;
    assert_eq!(cells, vec![low, low, low, low, empty, empty, empty, empty]);
    assert_eq!(meter_cells(0, 3), vec![empty, empty, empty]);
    assert_eq!(meter_cells(FULL_SCALE, 0), Vec::<MeterCell>::new());
}

#[test]
fn clock_face_counts_minutes_seconds_tenths() {
    assert_eq!(clock_face(0), ClockFace { minutes: 0, seconds: 0, tenths: 0 });
    assert_eq!(clock_face(125_300_000_000), ClockFace { minutes: 2, seconds: 5, tenths: 3 });
    assert_eq!(clock_face(59_999_999_999), ClockFace { minutes: 0, seconds: 59, tenths: 9 });
    assert_eq!(clock_face(60_000_000_000), ClockFace { minutes: 1, seconds: 0, tenths: 0 });
    assert_eq!(clock_face(3_600_000_000_000), ClockFace { minutes: 60, seconds: 0, tenths: 0 });
}

#[test]
fn progress_fill_is_the_played_part_of_the_width() {
    assert_eq!(progress_fill(0, 1_000, 40), 0);
    assert_eq!(progress_fill(250, 1_000, 40), 10);
    assert_eq!(progress_fill(999, 1_000, 40), 39);
    assert_eq!(progress_fill(1_000, 1_000, 40), 40);
    assert_eq!(progress_fill(5_000, 1_000, 40), 40);
    assert_eq!(progress_fill(5, 0, 40), 0);
    assert_eq!(progress_fill(u64::MAX - 1, u64::MAX, u16::MAX), u16::MAX - 1);
}
