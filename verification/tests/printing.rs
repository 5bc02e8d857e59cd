use lcd1602::mock::{MockFault, MockLine, MockTimer};
use lcd1602::{Error, LCD1602};

type MockLcd = LCD1602<MockLine, MockLine, MockLine, MockLine, MockLine, MockLine, MockTimer>;

fn fresh() -> MockLcd {
    LCD1602::new(
        MockLine::new(),
        MockLine::new(),
        MockLine::new(),
        MockLine::new(),
        MockLine::new(),
        MockLine::new(),
        MockTimer::new(),
    )
    .unwrap()
}

#[test]
fn print_hi_emits_both_bytes_nibble_by_nibble() {
    let mut lcd = fresh();
    lcd.print("Hi").unwrap();
    // 'H' = 0x48 (nibbles 0x4, 0x8), 'i' = 0x69 (nibbles 0x6, 0x9).
    assert_eq!(&lcd.rs.driven[3..], &[true, true]);
    assert_eq!(&lcd.timer.started[4..], &[320, 320]);
    assert_eq!(
        &lcd.en.driven[21..],
        &[false, true, false, false, true, false, false, true, false, false, true, false]
    );
    assert_eq!(&lcd.d4.driven[7..], &[false, false, false, true]);
    assert_eq!(&lcd.d5.driven[7..], &[false, false, true, false]);
    assert_eq!(&lcd.d6.driven[7..], &[true, false, true, false]);
    assert_eq!(&lcd.d7.driven[7..], &[false, true, false, true]);
    assert_eq!(lcd.char_count, 0);
}

#[test]
fn print_leaves_the_cursor_alone() {
    let mut lcd = fresh();
    lcd.print("abc").unwrap();
    assert_eq!(lcd.char_count, 0);
}

#[test]
fn print_of_nothing_writes_nothing() {
    let mut lcd = fresh();
    lcd.print("").unwrap();
    assert_eq!(lcd.rs.driven.len(), 3);
    assert_eq!(lcd.en.driven.len(), 21);
    assert_eq!(lcd.timer.started.len(), 4);
}

#[test]
fn print_truncates_a_character_to_its_low_byte() {
    let mut lcd = fresh();
    // U+0141 has low byte 0x41: nibbles 0x4, 0x1.
    lcd.print("\u{0141}").unwrap();
    assert_eq!(&lcd.d4.driven[7..], &[false, true]);
    assert_eq!(&lcd.d5.driven[7..], &[false, false]);
    assert_eq!(&lcd.d6.driven[7..], &[true, false]);
    assert_eq!(&lcd.d7.driven[7..], &[false, false]);
}

#[test]
fn print_stops_on_a_broken_data_line() {
    let mut lcd = fresh();
    lcd.d5.working = false;
    let r = lcd.print("A");
    assert!(matches!(r, Err(Error::PinError(MockFault))));
    assert_eq!(lcd.char_count, 0);
}

#[test]
fn println_counts_each_character() {
    let mut lcd = fresh();
    lcd.println("abc").unwrap();
    assert_eq!(lcd.char_count, 3);
    assert_eq!(&lcd.rs.driven[3..], &[true, true, true]);
    assert_eq!(&lcd.timer.started[4..], &[320, 320, 320]);
}

#[test]
fn println_at_column_fifteen_writes_nothing() {
    let mut lcd = fresh();
    lcd.char_count = 15;
    let rs_before = lcd.rs.driven.clone();
    let en_before = lcd.en.driven.clone();
    let timer_before = lcd.timer.started.clone();
    lcd.println("abc").unwrap();
    assert_eq!(lcd.char_count, 15);
    assert_eq!(lcd.rs.driven, rs_before);
    assert_eq!(lcd.en.driven, en_before);
    assert_eq!(lcd.timer.started, timer_before);
}

#[test]
fn println_guard_is_read_only_once_at_entry() {
    let mut lcd = fresh();
    lcd.char_count = 14;
    lcd.println("abc").unwrap();
    assert_eq!(lcd.char_count, 17);
    assert_eq!(&lcd.rs.driven[3..], &[true, true, true]);
}

#[test]
fn println_past_column_fifteen_still_prints() {
    let mut lcd = fresh();
    lcd.char_count = 16;
    lcd.println("a").unwrap();
    assert_eq!(lcd.char_count, 17);
    assert_eq!(&lcd.rs.driven[3..], &[true]);
}

#[test]
fn println_stops_before_writing_when_the_timer_fails() {
    let mut lcd = fresh();
    lcd.timer.working = false;
    let r = lcd.println("ab");
    assert!(matches!(r, Err(Error::TimerError)));
    assert_eq!(lcd.char_count, 0);
    assert_eq!(lcd.rs.driven.len(), 3);
}
