use kallisto::key_matrix::{KeyMatrix, N_COLS};

#[test]
fn scanner_accepts_change_after_debounce() {
    let mut m = KeyMatrix::new(0);
    let cols = [true, false, false, false, false, false, false];
    assert_eq!(m.poll_row_state(0, &cols, 60_000), 0b1);
}

#[test]
fn scanner_collapses_bounce_within_debounce() {
    let mut m = KeyMatrix::new(0);
    let pressed = [true, false, false, false, false, false, false];
    let released = [false; N_COLS];
    assert_eq!(m.poll_row_state(0, &pressed, 60_000), 0b1);
    assert_eq!(m.poll_row_state(0, &released, 70_000), 0b1);
    assert_eq!(m.poll_row_state(0, &pressed, 80_000), 0b1);
    assert_eq!(m.poll_row_state(0, &released, 120_000), 0);
}

#[test]
fn scanner_ignores_change_before_first_interval() {
    let mut m = KeyMatrix::new(0);
    let cols = [false, true, false, false, false, false, false];
    assert_eq!(m.poll_row_state(1, &cols, 50_000), 0);
    assert_eq!(m.poll_row_state(1, &cols, 50_001), 1 << 8);
}

#[test]
fn scanner_places_rows_and_columns() {
    let mut m = KeyMatrix::new(0);
    let rows = vec![
        vec![true, false, false, false, false, false, false],
        vec![false; N_COLS],
        vec![false, false, false, false, false, false, true],
    ];
    let times = [60_000, 60_200, 60_400];
    assert_eq!(m.poll_row_states(&rows, &times), (1 << 0) | (1 << 20));
}

#[test]
fn scanner_across_counter_rollover() {
    let mut m = KeyMatrix::new(u32::MAX - 10_000);
    let cols = [false, false, true, false, false, false, false];
    assert_eq!(m.poll_row_state(2, &cols, 45_000), 1 << 16);
}
