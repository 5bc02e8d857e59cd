use lcd1602::mock::{MockFault, MockLine, MockTimer};
use lcd1602::{BusWidth, Direction, Error, LCD1602};

type MockLcd = LCD1602<MockLine, MockLine, MockLine, MockLine, MockLine, MockLine, MockTimer>;

fn fresh() -> MockLcd {
    LCD1602::new(
        MockLine::new(),
        MockLine::new(),
        MockLine::new(),
        MockLine::new(),
        MockLine::new(),
        MockLine::new(),
        MockTimer::new(),
    )
    .unwrap()
}

fn pulses(n: usize) -> Vec<bool> {
    let mut v = Vec::new();
    for _ in 0..n {
        v.push(false);
        v.push(true);
        v.push(false);
    }
    v
}

#[test]
fn new_runs_the_init_sequence_and_zeroes_the_cursor() {
    let lcd = fresh();
    assert_eq!(lcd.char_count, 0);
    assert_eq!(lcd.timer.started, vec![50000, 39, 1530, 39]);
    assert_eq!(lcd.rs.driven, vec![false, false, false]);
    assert_eq!(lcd.en.driven, pulses(7));
    // One nibble 0x2, then bytes 0x0C, 0x01, 0x06, high nibble first.
    assert_eq!(
        lcd.d4.driven,
        vec![false, false, false, false, true, false, false]
    );
    assert_eq!(
        lcd.d5.driven,
        vec![true, false, false, false, false, false, true]
    );
    assert_eq!(
        lcd.d6.driven,
        vec![false, false, true, false, false, false, true]
    );
    assert_eq!(
        lcd.d7.driven,
        vec![false, false, true, false, false, false, false]
    );
}

#[test]
fn set_bus_width_eight_bits_fails_without_bus_activity() {
    let mut lcd = fresh();
    let en_before = lcd.en.driven.clone();
    let d4_before = lcd.d4.driven.clone();
    let timer_before = lcd.timer.started.clone();
    let r = lcd.set_bus_width(BusWidth::EightBits);
    assert!(matches!(r, Err(Error::UnsupportedBusWidth)));
    assert_eq!(lcd.en.driven, en_before);
    assert_eq!(lcd.d4.driven, d4_before);
    assert_eq!(lcd.timer.started, timer_before);
    assert_eq!(lcd.char_count, 0);
}

#[test]
fn set_bus_width_four_bits_writes_the_nibble_and_settles() {
    let mut lcd = fresh();
    lcd.set_bus_width(BusWidth::FourBits).unwrap();
    assert_eq!(&lcd.en.driven[21..], &[false, true, false]);
    assert_eq!(&lcd.d4.driven[7..], &[false]);
    assert_eq!(&lcd.d5.driven[7..], &[true]);
    assert_eq!(&lcd.d6.driven[7..], &[false]);
    assert_eq!(&lcd.d7.driven[7..], &[false]);
    assert_eq!(&lcd.timer.started[4..], &[39]);
}

#[test]
fn clear_resets_the_cursor_and_issues_the_clear_command() {
    let mut lcd = fresh();
    lcd.char_count = 7;
    lcd.clear().unwrap();
    assert_eq!(lcd.char_count, 0);
    assert_eq!(&lcd.rs.driven[3..], &[false]);
    // Command 0x01: high nibble 0x0, low nibble 0x1.
    assert_eq!(&lcd.d4.driven[7..], &[false, true]);
    assert_eq!(&lcd.d5.driven[7..], &[false, false]);
    assert_eq!(&lcd.d6.driven[7..], &[false, false]);
    assert_eq!(&lcd.d7.driven[7..], &[false, false]);
    assert_eq!(&lcd.timer.started[4..], &[1530]);
}

#[test]
fn home_keeps_the_cursor_where_it_was() {
    let mut lcd = fresh();
    lcd.char_count = 5;
    lcd.home().unwrap();
    assert_eq!(lcd.char_count, 5);
    assert_eq!(&lcd.rs.driven[3..], &[false]);
    // Command 0x02: high nibble 0x0, low nibble 0x2.
    assert_eq!(&lcd.d4.driven[7..], &[false, false]);
    assert_eq!(&lcd.d5.driven[7..], &[false, true]);
    assert_eq!(&lcd.d6.driven[7..], &[false, false]);
    assert_eq!(&lcd.d7.driven[7..], &[false, false]);
    assert_eq!(&lcd.timer.started[4..], &[1530]);
}

#[test]
fn entry_mode_right_to_left_with_tracking_encodes_0x07() {
    let mut lcd = fresh();
    lcd.set_entry_mode(Direction::RightToLeft, true).unwrap();
    // Command 0x07: high nibble 0x0, low nibble 0x7.
    assert_eq!(&lcd.d4.driven[7..], &[false, true]);
    assert_eq!(&lcd.d5.driven[7..], &[false, true]);
    assert_eq!(&lcd.d6.driven[7..], &[false, true]);
    assert_eq!(&lcd.d7.driven[7..], &[false, false]);
    assert_eq!(&lcd.timer.started[4..], &[39]);
}

#[test]
fn entry_mode_left_to_right_without_tracking_encodes_0x04() {
    let mut lcd = fresh();
    lcd.set_entry_mode(Direction::LeftToRight, false).unwrap();
    // Command 0x04: high nibble 0x0, low nibble 0x4.
    assert_eq!(&lcd.d4.driven[7..], &[false, false]);
    assert_eq!(&lcd.d5.driven[7..], &[false, false]);
    assert_eq!(&lcd.d6.driven[7..], &[false, true]);
    assert_eq!(&lcd.d7.driven[7..], &[false, false]);
}

#[test]
fn next_line_reissues_display_mode_and_zeroes_the_cursor() {
    let mut lcd = fresh();
    lcd.char_count = 9;
    lcd.next_line().unwrap();
    assert_eq!(lcd.char_count, 0);
    assert_eq!(&lcd.rs.driven[3..], &[false, false]);
    let mut en_tail = vec![false];
    en_tail.extend(pulses(2));
    assert_eq!(&lcd.en.driven[21..], &en_tail[..]);
    // Command 0x0C: high nibble 0x0, low nibble 0xC.
    assert_eq!(&lcd.d4.driven[7..], &[false, false]);
    assert_eq!(&lcd.d5.driven[7..], &[false, false]);
    assert_eq!(&lcd.d6.driven[7..], &[false, true]);
    assert_eq!(&lcd.d7.driven[7..], &[false, true]);
    assert_eq!(&lcd.timer.started[4..], &[1530]);
}

#[test]
fn construction_fails_with_a_broken_timer() {
    let r = LCD1602::new(
        MockLine::new(),
        MockLine::new(),
        MockLine::new(),
        MockLine::new(),
        MockLine::new(),
        MockLine::new(),
        MockTimer {
            started: Vec::new(),
            working: false,
        },
    );
    assert!(matches!(r, Err(Error::TimerError)));
}

#[test]
fn construction_fails_with_a_broken_line() {
    let r = LCD1602::new(
        MockLine::new(),
        MockLine {
            driven: Vec::new(),
            working: false,
        },
        MockLine::new(),
        MockLine::new(),
        MockLine::new(),
        MockLine::new(),
        MockTimer::new(),
    );
    assert!(matches!(r, Err(Error::PinError(MockFault))));
}

#[test]
fn clear_keeps_the_cursor_when_the_command_fails() {
    let mut lcd = fresh();
    lcd.char_count = 4;
    lcd.rs.working = false;
    let r = lcd.clear();
    assert!(matches!(r, Err(Error::PinError(MockFault))));
    assert_eq!(lcd.char_count, 4);
}

#[test]
fn delay_records_the_countdown_even_when_the_wait_fails() {
    let mut lcd = fresh();
    lcd.timer.working = false;
    let r = lcd.delay(777);
    assert!(matches!(r, Err(Error::TimerError)));
    assert_eq!(&lcd.timer.started[4..], &[777]);
}
