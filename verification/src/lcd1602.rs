use vstd::prelude::*;
use vstd::string::StrSliceExecFns;

use crate::capability::CountdownTimer;
use crate::capability::OutputLine;
use crate::error::no_pin_fault;
use crate::error::Error;
use crate::protocol::bit_of;
use crate::protocol::byte_writes;
use crate::protocol::delays;
use crate::protocol::entry_mode_byte;
use crate::protocol::init_writes;
use crate::protocol::lemma_nibble_bits;
use crate::protocol::lemma_pulses_add;
use crate::protocol::lemma_pulses_one;
use crate::protocol::lemma_pulses_two;
use crate::protocol::lemma_text_writes_push;
use crate::protocol::levels;
use crate::protocol::pulse;
use crate::protocol::pulses;
use crate::protocol::text_writes;
use crate::protocol::CHAR_DELAY_US;
use crate::protocol::CLEAR_CMD;
use crate::protocol::CLEAR_DELAY_US;
use crate::protocol::DISPLAY_ON_CMD;
use crate::protocol::FOUR_BIT_NIBBLE;
use crate::protocol::HOME_CMD;
use crate::protocol::POWER_ON_DELAY_US;
use crate::protocol::SETTLE_DELAY_US;

verus! {

/// The direction in which consecutive characters advance on the display.
#[derive(Debug, Clone, Copy, PartialEq, Eq, Structural)]
pub enum Direction {
    LeftToRight,
    RightToLeft,
}

/// Width of the parallel bus between driver and controller. Only the
/// four-bit mode is supported.
#[derive(Debug, Clone, Copy, PartialEq, Eq, Structural)]
pub enum BusWidth {
    FourBits,
    EightBits,
}

/// Driver for an HD44780-compatible display on a 4-bit bus.
///
/// The driver exclusively owns its six lines and its timer; they are kept
/// public so that a harness built on recording lines can inspect what was
/// driven. `char_count` is the local cursor column: the number of
/// characters `println` has written since the last `clear` or
/// `next_line`.
pub struct LCD1602<EN, RS, D4, D5, D6, D7, Timer> {
    pub en: EN,
    pub rs: RS,
    pub d4: D4,
    pub d5: D5,
    pub d6: D6,
    pub d7: D7,
    pub timer: Timer,
    pub char_count: usize,
}

impl<EN, RS, D4, D5, D6, D7, Timer, E> LCD1602<EN, RS, D4, D5, D6, D7, Timer> where
    EN: OutputLine<Fault = E>,
    RS: OutputLine<Fault = E>,
    D4: OutputLine<Fault = E>,
    D5: OutputLine<Fault = E>,
    D6: OutputLine<Fault = E>,
    D7: OutputLine<Fault = E>,
    Timer: CountdownTimer,
{
    /// Start a countdown of `interval_us` microseconds and block until it
    /// expires. The countdown is recorded even when the wait fails.
    pub fn delay(&mut self, interval_us: u32) -> (r: Result<(), Error<E>>)
        ensures
            final(self).timer.log() == old(self).timer.log().push(interval_us),
            final(self).en.log() == old(self).en.log(),
            final(self).rs.log() == old(self).rs.log(),
            final(self).d4.log() == old(self).d4.log(),
            final(self).d5.log() == old(self).d5.log(),
            final(self).d6.log() == old(self).d6.log(),
            final(self).d7.log() == old(self).d7.log(),
            final(self).char_count == old(self).char_count,
            r matches Err(e) ==> e is TimerError,
    {
        self.timer.start(interval_us);
        match self.timer.wait() {
            Ok(()) => Ok(()),
            Err(_) => Err(Error::TimerError),
        }
    }

    /// Drive the low four bits of `data` onto the data lines, bit 0 on
    /// D4 through bit 3 on D7, and latch them with one enable pulse.
    /// No delay is inserted: callers owe the controller its settle time.
    fn write_bus(&mut self, data: u8) -> (r: Result<(), Error<E>>)
        ensures
            final(self).rs.log() == old(self).rs.log(),
            final(self).timer.log() == old(self).timer.log(),
            final(self).char_count == old(self).char_count,
            r is Ok ==> final(self).en.log() == old(self).en.log() + pulse(),
            r is Ok ==> final(self).d4.log() == old(self).d4.log().push(bit_of(data, 0)),
            r is Ok ==> final(self).d5.log() == old(self).d5.log().push(bit_of(data, 1)),
            r is Ok ==> final(self).d6.log() == old(self).d6.log().push(bit_of(data, 2)),
            r is Ok ==> final(self).d7.log() == old(self).d7.log().push(bit_of(data, 3)),
            r matches Err(e) ==> e is PinError,
    {
        proof {
            assert(((data & 0x1) > 0) == bit_of(data, 0)) by (bit_vector);
            assert(((data & 0x2) > 0) == bit_of(data, 1)) by (bit_vector);
            assert(((data & 0x4) > 0) == bit_of(data, 2)) by (bit_vector);
            assert(((data & 0x8) > 0) == bit_of(data, 3)) by (bit_vector);
        }
        match self.en.set_low() {
            Ok(()) => {},
            Err(e) => {
                return Err(Error::PinError(e));
            },
        }
        let r4 = if (data & 0x1) > 0 {
            self.d4.set_high()
        } else {
            self.d4.set_low()
        };
        match r4 {
            Ok(()) => {},
            Err(e) => {
                return Err(Error::PinError(e));
            },
        }
        let r5 = if (data & 0x2) > 0 {
            self.d5.set_high()
        } else {
            self.d5.set_low()
        };
        match r5 {
            Ok(()) => {},
            Err(e) => {
                return Err(Error::PinError(e));
            },
        }
        let r6 = if (data & 0x4) > 0 {
            self.d6.set_high()
        } else {
            self.d6.set_low()
        };
        match r6 {
            Ok(()) => {},
            Err(e) => {
                return Err(Error::PinError(e));
            },
        }
        let r7 = if (data & 0x8) > 0 {
            self.d7.set_high()
        } else {
            self.d7.set_low()
        };
        match r7 {
            Ok(()) => {},
            Err(e) => {
                return Err(Error::PinError(e));
            },
        }
        match self.en.set_high() {
            Ok(()) => {},
            Err(e) => {
                return Err(Error::PinError(e));
            },
        }
        match self.en.set_low() {
            Ok(()) => {},
            Err(e) => {
                return Err(Error::PinError(e));
            },
        }
        proof {
            assert(self.en.log() =~= old(self).en.log() + pulse());
        }
        Ok(())
    }

    /// Send `cmd` as a command: register-select low, then the high and
    /// the low nibble, each latched by its own enable pulse.
    fn command(&mut self, cmd: u8) -> (r: Result<(), Error<E>>)
        ensures
            final(self).timer.log() == old(self).timer.log(),
            final(self).char_count == old(self).char_count,
            r is Ok ==> final(self).rs.log() == old(self).rs.log().push(false),
            r is Ok ==> final(self).en.log() == old(self).en.log() + pulses(2),
            r is Ok ==> final(self).d4.log() == old(self).d4.log() + byte_writes(cmd, 0),
            r is Ok ==> final(self).d5.log() == old(self).d5.log() + byte_writes(cmd, 1),
            r is Ok ==> final(self).d6.log() == old(self).d6.log() + byte_writes(cmd, 2),
            r is Ok ==> final(self).d7.log() == old(self).d7.log() + byte_writes(cmd, 3),
            r matches Err(e) ==> e is PinError,
    {
        match self.rs.set_low() {
            Ok(()) => {},
            Err(e) => {
                return Err(Error::PinError(e));
            },
        }
        match self.write_bus((cmd & 0xF0) >> 4) {
            Ok(()) => {},
            Err(e) => {
                return Err(e);
            },
        }
        match self.write_bus(cmd & 0x0F) {
            Ok(()) => {},
            Err(e) => {
                return Err(e);
            },
        }
        proof {
            lemma_nibble_bits(cmd);
            lemma_pulses_two();
            assert(self.en.log() =~= old(self).en.log() + pulses(2));
            assert(self.d4.log() =~= old(self).d4.log() + byte_writes(cmd, 0));
            assert(self.d5.log() =~= old(self).d5.log() + byte_writes(cmd, 1));
            assert(self.d6.log() =~= old(self).d6.log() + byte_writes(cmd, 2));
            assert(self.d7.log() =~= old(self).d7.log() + byte_writes(cmd, 3));
        }
        Ok(())
    }

    /// Fix the bus width. Only [`BusWidth::FourBits`] is supported: the
    /// four-bit nibble is driven onto the bus and the settle delay is
    /// inserted. Any other width fails without touching the bus at all.
    pub fn set_bus_width(&mut self, bus_width: BusWidth) -> (r: Result<(), Error<E>>)
        ensures
            final(self).rs.log() == old(self).rs.log(),
            final(self).char_count == old(self).char_count,
            !(bus_width is FourBits) ==> r == Err::<(), Error<E>>(Error::UnsupportedBusWidth)
                && *final(self) == *old(self),
            bus_width is FourBits && no_pin_fault(r) ==> final(self).en.log() == old(self).en.log()
                + pulse(),
            bus_width is FourBits && no_pin_fault(r) ==> final(self).d4.log() == old(self).d4.log().push(
                bit_of(FOUR_BIT_NIBBLE, 0),
            ),
            bus_width is FourBits && no_pin_fault(r) ==> final(self).d5.log() == old(self).d5.log().push(
                bit_of(FOUR_BIT_NIBBLE, 1),
            ),
            bus_width is FourBits && no_pin_fault(r) ==> final(self).d6.log() == old(self).d6.log().push(
                bit_of(FOUR_BIT_NIBBLE, 2),
            ),
            bus_width is FourBits && no_pin_fault(r) ==> final(self).d7.log() == old(self).d7.log().push(
                bit_of(FOUR_BIT_NIBBLE, 3),
            ),
            bus_width is FourBits && no_pin_fault(r) ==> final(self).timer.log() == old(
                self,
            ).timer.log().push(SETTLE_DELAY_US),
            bus_width is FourBits ==> (r matches Err(e) ==> e is PinError || e is TimerError),
    {
        match bus_width {
            BusWidth::FourBits => {
                match self.write_bus(FOUR_BIT_NIBBLE) {
                    Ok(()) => {},
                    Err(e) => {
                        return Err(e);
                    },
                }
                self.delay(SETTLE_DELAY_US)
            },
            _ => Err(Error::UnsupportedBusWidth),
        }
    }

    /// Configure the entry mode: the direction the cursor advances in and
    /// whether the whole display shifts at the screen edge. Issues the
    /// entry-mode command byte and the settle delay.
    pub fn set_entry_mode(
        &mut self,
        text_direction: Direction,
        screen_edge_tracking: bool,
    ) -> (r: Result<(), Error<E>>)
        ensures
            final(self).char_count == old(self).char_count,
            no_pin_fault(r) ==> final(self).rs.log() == old(self).rs.log().push(false),
            no_pin_fault(r) ==> final(self).en.log() == old(self).en.log() + pulses(2),
            no_pin_fault(r) ==> final(self).d4.log() == old(self).d4.log() + byte_writes(
                entry_mode_byte(text_direction is RightToLeft, screen_edge_tracking),
                0,
            ),
            no_pin_fault(r) ==> final(self).d5.log() == old(self).d5.log() + byte_writes(
                entry_mode_byte(text_direction is RightToLeft, screen_edge_tracking),
                1,
            ),
            no_pin_fault(r) ==> final(self).d6.log() == old(self).d6.log() + byte_writes(
                entry_mode_byte(text_direction is RightToLeft, screen_edge_tracking),
                2,
            ),
            no_pin_fault(r) ==> final(self).d7.log() == old(self).d7.log() + byte_writes(
                entry_mode_byte(text_direction is RightToLeft, screen_edge_tracking),
                3,
            ),
            no_pin_fault(r) ==> final(self).timer.log() == old(self).timer.log().push(SETTLE_DELAY_US),
            r matches Err(e) ==> e is PinError || e is TimerError,
    {
        let mut cmd: u8 = 0x04;
        if text_direction == Direction::RightToLeft {
            cmd = cmd | 0x02;
        }
        if screen_edge_tracking {
            cmd = cmd | 0x01;
        }
        assert(cmd == entry_mode_byte(text_direction is RightToLeft, screen_edge_tracking));
        match self.command(cmd) {
            Ok(()) => {},
            Err(e) => {
                return Err(e);
            },
        }
        self.delay(SETTLE_DELAY_US)
    }

    /// Clear the display and reset the cursor column to zero. The clear
    /// command is a long-running controller operation, so its own longer
    /// delay follows.
    pub fn clear(&mut self) -> (r: Result<(), Error<E>>)
        ensures
            no_pin_fault(r) ==> final(self).char_count == 0,
            no_pin_fault(r) ==> final(self).rs.log() == old(self).rs.log().push(false),
            no_pin_fault(r) ==> final(self).en.log() == old(self).en.log() + pulses(2),
            no_pin_fault(r) ==> final(self).d4.log() == old(self).d4.log() + byte_writes(CLEAR_CMD, 0),
            no_pin_fault(r) ==> final(self).d5.log() == old(self).d5.log() + byte_writes(CLEAR_CMD, 1),
            no_pin_fault(r) ==> final(self).d6.log() == old(self).d6.log() + byte_writes(CLEAR_CMD, 2),
            no_pin_fault(r) ==> final(self).d7.log() == old(self).d7.log() + byte_writes(CLEAR_CMD, 3),
            no_pin_fault(r) ==> final(self).timer.log() == old(self).timer.log().push(CLEAR_DELAY_US),
            r matches Err(e) ==> e is PinError || e is TimerError,
            r matches Err(e) && e is PinError ==> final(self).char_count == old(self).char_count,
    {
        match self.command(CLEAR_CMD) {
            Ok(()) => {},
            Err(e) => {
                return Err(e);
            },
        }
        self.char_count = 0;
        self.delay(CLEAR_DELAY_US)
    }

    /// Return the controller's write address to the origin. The cursor
    /// column is deliberately left alone: only `clear` and `next_line`
    /// reset it.
    pub fn home(&mut self) -> (r: Result<(), Error<E>>)
        ensures
            final(self).char_count == old(self).char_count,
            no_pin_fault(r) ==> final(self).rs.log() == old(self).rs.log().push(false),
            no_pin_fault(r) ==> final(self).en.log() == old(self).en.log() + pulses(2),
            no_pin_fault(r) ==> final(self).d4.log() == old(self).d4.log() + byte_writes(HOME_CMD, 0),
            no_pin_fault(r) ==> final(self).d5.log() == old(self).d5.log() + byte_writes(HOME_CMD, 1),
            no_pin_fault(r) ==> final(self).d6.log() == old(self).d6.log() + byte_writes(HOME_CMD, 2),
            no_pin_fault(r) ==> final(self).d7.log() == old(self).d7.log() + byte_writes(HOME_CMD, 3),
            no_pin_fault(r) ==> final(self).timer.log() == old(self).timer.log().push(CLEAR_DELAY_US),
            r matches Err(e) ==> e is PinError || e is TimerError,
    {
        match self.command(HOME_CMD) {
            Ok(()) => {},
            Err(e) => {
                return Err(e);
            },
        }
        self.delay(CLEAR_DELAY_US)
    }

    /// Force register-select and enable low, reissue the display-on
    /// command and reset the cursor column. This only resets the local
    /// bookkeeping and re-asserts the display mode; it does not move the
    /// controller's write address to the second display line.
    pub fn next_line(&mut self) -> (r: Result<(), Error<E>>)
        ensures
            no_pin_fault(r) ==> final(self).char_count == 0,
            no_pin_fault(r) ==> final(self).rs.log() == old(self).rs.log() + seq![false, false],
            no_pin_fault(r) ==> final(self).en.log() == old(self).en.log() + seq![false] + pulses(2),
            no_pin_fault(r) ==> final(self).d4.log() == old(self).d4.log() + byte_writes(
                DISPLAY_ON_CMD,
                0,
            ),
            no_pin_fault(r) ==> final(self).d5.log() == old(self).d5.log() + byte_writes(
                DISPLAY_ON_CMD,
                1,
            ),
            no_pin_fault(r) ==> final(self).d6.log() == old(self).d6.log() + byte_writes(
                DISPLAY_ON_CMD,
                2,
            ),
            no_pin_fault(r) ==> final(self).d7.log() == old(self).d7.log() + byte_writes(
                DISPLAY_ON_CMD,
                3,
            ),
            no_pin_fault(r) ==> final(self).timer.log() == old(self).timer.log().push(CLEAR_DELAY_US),
            r matches Err(e) ==> e is PinError || e is TimerError,
            r matches Err(e) && e is PinError ==> final(self).char_count == old(self).char_count,
    {
        match self.rs.set_low() {
            Ok(()) => {},
            Err(e) => {
                return Err(Error::PinError(e));
            },
        }
        match self.en.set_low() {
            Ok(()) => {},
            Err(e) => {
                return Err(Error::PinError(e));
            },
        }
        match self.command(DISPLAY_ON_CMD) {
            Ok(()) => {},
            Err(e) => {
                return Err(e);
            },
        }
        self.char_count = 0;
        proof {
            assert(self.rs.log() =~= old(self).rs.log() + seq![false, false]);
            assert(self.en.log() =~= old(self).en.log() + seq![false] + pulses(2));
        }
        self.delay(CLEAR_DELAY_US)
    }

    /// Send `ch` as display data: register-select high, then the high and
    /// the low nibble, each latched by its own enable pulse.
    fn write_char(&mut self, ch: u8) -> (r: Result<(), Error<E>>)
        ensures
            final(self).timer.log() == old(self).timer.log(),
            final(self).char_count == old(self).char_count,
            r is Ok ==> final(self).rs.log() == old(self).rs.log().push(true),
            r is Ok ==> final(self).en.log() == old(self).en.log() + pulses(2),
            r is Ok ==> final(self).d4.log() == old(self).d4.log() + byte_writes(ch, 0),
            r is Ok ==> final(self).d5.log() == old(self).d5.log() + byte_writes(ch, 1),
            r is Ok ==> final(self).d6.log() == old(self).d6.log() + byte_writes(ch, 2),
            r is Ok ==> final(self).d7.log() == old(self).d7.log() + byte_writes(ch, 3),
            r matches Err(e) ==> e is PinError,
    {
        match self.rs.set_high() {
            Ok(()) => {},
            Err(e) => {
                return Err(Error::PinError(e));
            },
        }
        match self.write_bus((ch & 0xF0) >> 4) {
            Ok(()) => {},
            Err(e) => {
                return Err(e);
            },
        }
        match self.write_bus(ch & 0x0F) {
            Ok(()) => {},
            Err(e) => {
                return Err(e);
            },
        }
        proof {
            lemma_nibble_bits(ch);
            lemma_pulses_two();
            assert(self.en.log() =~= old(self).en.log() + pulses(2));
            assert(self.d4.log() =~= old(self).d4.log() + byte_writes(ch, 0));
            assert(self.d5.log() =~= old(self).d5.log() + byte_writes(ch, 1));
            assert(self.d6.log() =~= old(self).d6.log() + byte_writes(ch, 2));
            assert(self.d7.log() =~= old(self).d7.log() + byte_writes(ch, 3));
        }
        Ok(())
    }

    /// Bring an uninitialized controller into a known state: wait out the
    /// cold-start settle time, fix the bus at four bits, switch the
    /// display on, clear it and set right-to-left entry mode. Aborts on
    /// the first failure.
    fn init(&mut self) -> (r: Result<(), Error<E>>)
        ensures
            r is Ok ==> final(self).char_count == 0,
            r is Ok ==> final(self).rs.log() == old(self).rs.log() + seq![false, false, false],
            r is Ok ==> final(self).en.log() == old(self).en.log() + pulses(7),
            r is Ok ==> final(self).d4.log() == old(self).d4.log() + init_writes(0),
            r is Ok ==> final(self).d5.log() == old(self).d5.log() + init_writes(1),
            r is Ok ==> final(self).d6.log() == old(self).d6.log() + init_writes(2),
            r is Ok ==> final(self).d7.log() == old(self).d7.log() + init_writes(3),
            r is Ok ==> final(self).timer.log() == old(self).timer.log() + seq![
                POWER_ON_DELAY_US,
                SETTLE_DELAY_US,
                CLEAR_DELAY_US,
                SETTLE_DELAY_US,
            ],
            r matches Err(e) ==> e is PinError || e is TimerError,
    {
        match self.delay(POWER_ON_DELAY_US) {
            Ok(()) => {},
            Err(e) => {
                return Err(e);
            },
        }
        match self.set_bus_width(BusWidth::FourBits) {
            Ok(()) => {},
            Err(e) => {
                return Err(e);
            },
        }
        match self.command(DISPLAY_ON_CMD) {
            Ok(()) => {},
            Err(e) => {
                return Err(e);
            },
        }
        match self.clear() {
            Ok(()) => {},
            Err(e) => {
                return Err(e);
            },
        }
        match self.set_entry_mode(Direction::RightToLeft, false) {
            Ok(()) => {},
            Err(e) => {
                return Err(e);
            },
        }
        proof {
            lemma_pulses_one();
            lemma_pulses_add(1, 2);
            lemma_pulses_add(3, 2);
            lemma_pulses_add(5, 2);
            assert(self.rs.log() =~= old(self).rs.log() + seq![false, false, false]);
            assert(self.en.log() =~= old(self).en.log() + pulses(7));
            assert(self.d4.log() =~= old(self).d4.log() + init_writes(0));
            assert(self.d5.log() =~= old(self).d5.log() + init_writes(1));
            assert(self.d6.log() =~= old(self).d6.log() + init_writes(2));
            assert(self.d7.log() =~= old(self).d7.log() + init_writes(3));
            assert(self.timer.log() =~= old(self).timer.log() + seq![
                POWER_ON_DELAY_US,
                SETTLE_DELAY_US,
                CLEAR_DELAY_US,
                SETTLE_DELAY_US,
            ]);
        }
        Ok(())
    }

    /// Take ownership of the six lines and the timer and run the full
    /// initialization protocol. On success the driver is ready and its
    /// cursor column is zero; on failure no driver is produced.
    pub fn new(en: EN, rs: RS, d4: D4, d5: D5, d6: D6, d7: D7, timer: Timer) -> (r: Result<
        LCD1602<EN, RS, D4, D5, D6, D7, Timer>,
        Error<E>,
    >)
        ensures
            r matches Ok(lcd) ==> lcd.char_count == 0,
            r matches Ok(lcd) ==> lcd.rs.log() == rs.log() + seq![false, false, false],
            r matches Ok(lcd) ==> lcd.en.log() == en.log() + pulses(7),
            r matches Ok(lcd) ==> lcd.d4.log() == d4.log() + init_writes(0),
            r matches Ok(lcd) ==> lcd.d5.log() == d5.log() + init_writes(1),
            r matches Ok(lcd) ==> lcd.d6.log() == d6.log() + init_writes(2),
            r matches Ok(lcd) ==> lcd.d7.log() == d7.log() + init_writes(3),
            r matches Ok(lcd) ==> lcd.timer.log() == timer.log() + seq![
                POWER_ON_DELAY_US,
                SETTLE_DELAY_US,
                CLEAR_DELAY_US,
                SETTLE_DELAY_US,
            ],
            r matches Err(e) ==> e is PinError || e is TimerError,
    {
        let mut lcd = LCD1602 { en, rs, d4, d5, d6, d7, timer, char_count: 0 };
        match lcd.init() {
            Ok(()) => Ok(lcd),
            Err(e) => Err(e),
        }
    }

    /// Print `text` without touching the cursor column: for each
    /// character, wait the per-character delay, then transmit the
    /// character's low byte as display data. Nothing bounds the text to
    /// the display width.
    pub fn print(&mut self, s: &str) -> (r: Result<(), Error<E>>)
        ensures
            final(self).char_count == old(self).char_count,
            r is Ok ==> final(self).rs.log() == old(self).rs.log() + levels(s@.len(), true),
            r is Ok ==> final(self).en.log() == old(self).en.log() + pulses(2 * s@.len()),
            r is Ok ==> final(self).d4.log() == old(self).d4.log() + text_writes(s@, 0),
            r is Ok ==> final(self).d5.log() == old(self).d5.log() + text_writes(s@, 1),
            r is Ok ==> final(self).d6.log() == old(self).d6.log() + text_writes(s@, 2),
            r is Ok ==> final(self).d7.log() == old(self).d7.log() + text_writes(s@, 3),
            r is Ok ==> final(self).timer.log() == old(self).timer.log() + delays(
                s@.len(),
                CHAR_DELAY_US,
            ),
            r matches Err(e) ==> e is PinError || e is TimerError,
    {
        let n = s.unicode_len();
        let mut i: usize = 0;
        while i < n
            invariant
                n == s@.len(),
                i <= n,
                self.char_count == old(self).char_count,
                self.rs.log() == old(self).rs.log() + levels(i as nat, true),
                self.en.log() == old(self).en.log() + pulses((2 * i) as nat),
                self.d4.log() == old(self).d4.log() + text_writes(s@.take(i as int), 0),
                self.d5.log() == old(self).d5.log() + text_writes(s@.take(i as int), 1),
                self.d6.log() == old(self).d6.log() + text_writes(s@.take(i as int), 2),
                self.d7.log() == old(self).d7.log() + text_writes(s@.take(i as int), 3),
                self.timer.log() == old(self).timer.log() + delays(i as nat, CHAR_DELAY_US),
            decreases n - i,
        {
            match self.delay(CHAR_DELAY_US) {
                Ok(()) => {},
                Err(e) => {
                    return Err(e);
                },
            }
            let ch = s.get_char(i);
            let b: u8 = #[verifier::truncate] (ch as u8);
            match self.write_char(b) {
                Ok(()) => {},
                Err(e) => {
                    return Err(e);
                },
            }
            proof {
                lemma_pulses_add((2 * i) as nat, 2);
                assert(s@.take(i + 1) =~= s@.take(i as int).push(s@[i as int]));
                lemma_text_writes_push(s@.take(i as int), s@[i as int], 0);
                lemma_text_writes_push(s@.take(i as int), s@[i as int], 1);
                lemma_text_writes_push(s@.take(i as int), s@[i as int], 2);
                lemma_text_writes_push(s@.take(i as int), s@[i as int], 3);
                assert(self.rs.log() =~= old(self).rs.log() + levels((i + 1) as nat, true));
                assert(self.en.log() =~= old(self).en.log() + pulses((2 * (i + 1)) as nat));
                assert(self.d4.log() =~= old(self).d4.log() + text_writes(s@.take(i + 1), 0));
                assert(self.d5.log() =~= old(self).d5.log() + text_writes(s@.take(i + 1), 1));
                assert(self.d6.log() =~= old(self).d6.log() + text_writes(s@.take(i + 1), 2));
                assert(self.d7.log() =~= old(self).d7.log() + text_writes(s@.take(i + 1), 3));
                assert(self.timer.log() =~= old(self).timer.log() + delays(
                    (i + 1) as nat,
                    CHAR_DELAY_US,
                ));
            }
            i = i + 1;
        }
        proof {
            assert(s@.take(n as int) =~= s@);
        }
        Ok(())
    }

    /// Print `text` while counting characters, guarded once at entry: if
    /// the cursor column is exactly 15 when called, nothing at all is
    /// written; otherwise every character is transmitted as in `print`
    /// and the cursor column grows by one per character. The guard is not
    /// looked at again while printing.
    pub fn println(&mut self, s: &str) -> (r: Result<(), Error<E>>)
        requires
            old(self).char_count + s@.len() <= usize::MAX,
        ensures
            old(self).char_count == 15 ==> r is Ok && *final(self) == *old(self),
            old(self).char_count != 15 && r is Ok ==> final(self).char_count == old(
                self,
            ).char_count + s@.len(),
            old(self).char_count != 15 && r is Ok ==> final(self).rs.log() == old(self).rs.log()
                + levels(s@.len(), true),
            old(self).char_count != 15 && r is Ok ==> final(self).en.log() == old(self).en.log()
                + pulses(2 * s@.len()),
            old(self).char_count != 15 && r is Ok ==> final(self).d4.log() == old(self).d4.log()
                + text_writes(s@, 0),
            old(self).char_count != 15 && r is Ok ==> final(self).d5.log() == old(self).d5.log()
                + text_writes(s@, 1),
            old(self).char_count != 15 && r is Ok ==> final(self).d6.log() == old(self).d6.log()
                + text_writes(s@, 2),
            old(self).char_count != 15 && r is Ok ==> final(self).d7.log() == old(self).d7.log()
                + text_writes(s@, 3),
            old(self).char_count != 15 && r is Ok ==> final(self).timer.log() == old(
                self,
            ).timer.log() + delays(s@.len(), CHAR_DELAY_US),
            r is Err ==> old(self).char_count <= final(self).char_count <= old(self).char_count
                + s@.len(),
            r matches Err(e) ==> e is PinError || e is TimerError,
    {
        if self.char_count != 15 {
            let n = s.unicode_len();
            let mut i: usize = 0;
            while i < n
                invariant
                    n == s@.len(),
                    i <= n,
                    old(self).char_count != 15,
                    old(self).char_count + s@.len() <= usize::MAX,
                    self.char_count == old(self).char_count + i,
                    self.rs.log() == old(self).rs.log() + levels(i as nat, true),
                    self.en.log() == old(self).en.log() + pulses((2 * i) as nat),
                    self.d4.log() == old(self).d4.log() + text_writes(s@.take(i as int), 0),
                    self.d5.log() == old(self).d5.log() + text_writes(s@.take(i as int), 1),
                    self.d6.log() == old(self).d6.log() + text_writes(s@.take(i as int), 2),
                    self.d7.log() == old(self).d7.log() + text_writes(s@.take(i as int), 3),
                    self.timer.log() == old(self).timer.log() + delays(i as nat, CHAR_DELAY_US),
                decreases n - i,
            {
                match self.delay(CHAR_DELAY_US) {
                    Ok(()) => {},
                    Err(e) => {
                        return Err(e);
                    },
                }
                let ch = s.get_char(i);
                let b: u8 = #[verifier::truncate] (ch as u8);
                match self.write_char(b) {
                    Ok(()) => {},
                    Err(e) => {
                        return Err(e);
                    },
                }
                self.char_count = self.char_count + 1;
                proof {
                    lemma_pulses_add((2 * i) as nat, 2);
                    assert(s@.take(i + 1) =~= s@.take(i as int).push(s@[i as int]));
                    lemma_text_writes_push(s@.take(i as int), s@[i as int], 0);
                    lemma_text_writes_push(s@.take(i as int), s@[i as int], 1);
                    lemma_text_writes_push(s@.take(i as int), s@[i as int], 2);
                    lemma_text_writes_push(s@.take(i as int), s@[i as int], 3);
                    assert(self.rs.log() =~= old(self).rs.log() + levels((i + 1) as nat, true));
                    assert(self.en.log() =~= old(self).en.log() + pulses((2 * (i + 1)) as nat));
                    assert(self.d4.log() =~= old(self).d4.log() + text_writes(s@.take(i + 1), 0));
                    assert(self.d5.log() =~= old(self).d5.log() + text_writes(s@.take(i + 1), 1));
                    assert(self.d6.log() =~= old(self).d6.log() + text_writes(s@.take(i + 1), 2));
                    assert(self.d7.log() =~= old(self).d7.log() + text_writes(s@.take(i + 1), 3));
                    assert(self.timer.log() =~= old(self).timer.log() + delays(
                        (i + 1) as nat,
                        CHAR_DELAY_US,
                    ));
                }
                i = i + 1;
            }
            proof {
                assert(s@.take(n as int) =~= s@);
            }
        }
        Ok(())
    }
}

} // verus!
