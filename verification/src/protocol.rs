use vstd::prelude::*;

verus! {

// Delays the datasheet mandates, in microseconds.

/// Cold-start settle time before the first command may be issued.
pub const POWER_ON_DELAY_US: u32 = 50000;

/// Settle time after a short command (bus width, entry mode).
pub const SETTLE_DELAY_US: u32 = 39;

/// Processing time of the long-running clear command.
pub const CLEAR_DELAY_US: u32 = 1530;

/// Pause inserted before each character is transmitted.
pub const CHAR_DELAY_US: u32 = 320;

// Command bytes of the HD44780 command set that the driver issues.

/// Clear the display.
pub const CLEAR_CMD: u8 = 0x01;

/// Return the controller's write address to the origin.
pub const HOME_CMD: u8 = 0x02;

/// Display on, cursor off, blink off.
pub const DISPLAY_ON_CMD: u8 = 0x0C;

/// The nibble that fixes the bus width at four bits.
pub const FOUR_BIT_NIBBLE: u8 = 0x02;

/// Bit `i` of byte `b`, as a line level.
pub open spec fn bit_of(b: u8, i: u8) -> bool {
    (b >> i) & 1 == 1
}

/// One enable pulse: the low, high, low transition that latches a nibble.
pub open spec fn pulse() -> Seq<bool> {
    seq![false, true, false]
}

/// `n` enable pulses in a row.
pub open spec fn pulses(n: nat) -> Seq<bool>
    decreases n,
{
    if n == 0 {
        Seq::empty()
    } else {
        pulses((n - 1) as nat) + pulse()
    }
}

/// The levels the data line carrying bus bit `i` sees when one byte is
/// sent: bit `i` of the high nibble first, then bit `i` of the low nibble.
pub open spec fn byte_writes(b: u8, i: u8) -> Seq<bool> {
    seq![bit_of(b, ((i + 4) as u8)), bit_of(b, i)]
}

/// Low eight bits of a character, the payload `print` and `println`
/// transmit for it.
pub open spec fn low_byte(c: char) -> u8 {
    c as u8
}

/// The levels the data line carrying bus bit `i` sees while a text is
/// printed: two nibbles for each character, in text order.
pub open spec fn text_writes(text: Seq<char>, i: u8) -> Seq<bool>
    decreases text.len(),
{
    if text.len() == 0 {
        Seq::empty()
    } else {
        text_writes(text.drop_last(), i) + byte_writes(low_byte(text.last()), i)
    }
}

/// `n` copies of one level: the register-select history of printing `n`
/// characters.
pub open spec fn levels(n: nat, level: bool) -> Seq<bool> {
    Seq::new(n, |k: int| level)
}

/// `n` equal delays: one per printed character.
pub open spec fn delays(n: nat, us: u32) -> Seq<u32> {
    Seq::new(n, |k: int| us)
}

/// The command byte that configures the entry mode: a base of `0x04`,
/// with `0x02` set for right-to-left text and `0x01` set for screen-edge
/// tracking.
pub open spec fn entry_mode_byte(right_to_left: bool, screen_edge_tracking: bool) -> u8 {
    let with_direction: u8 = if right_to_left {
        0x04u8 | 0x02u8
    } else {
        0x04u8
    };
    if screen_edge_tracking {
        with_direction | 0x01u8
    } else {
        with_direction
    }
}

/// The levels the data line carrying bus bit `i` sees while the driver
/// initializes: the four-bit nibble, then the display-on, clear and
/// entry-mode command bytes.
pub open spec fn init_writes(i: u8) -> Seq<bool> {
    seq![bit_of(FOUR_BIT_NIBBLE, i)] + byte_writes(DISPLAY_ON_CMD, i) + byte_writes(CLEAR_CMD, i)
        + byte_writes(entry_mode_byte(true, false), i)
}

/// Pulse counts add up: a run of `a + b` pulses is a run of `a` followed
/// by a run of `b`.
pub proof fn lemma_pulses_add(a: nat, b: nat)
    ensures
        pulses(a + b) == pulses(a) + pulses(b),
    decreases b,
{
    if b == 0 {
        assert(pulses(a + 0) =~= pulses(a) + pulses(0));
    } else {
        lemma_pulses_add(a, (b - 1) as nat);
        assert(pulses(a + b) =~= pulses(a) + pulses(b));
    }
}

/// A run of one pulse is the pulse itself.
pub proof fn lemma_pulses_one()
    ensures
        pulses(1) == pulse(),
{
    reveal_with_fuel(pulses, 2);
    assert(pulses(1) =~= pulse());
}

/// A run of two pulses, spelled out: what one byte write drives onto the
/// enable line.
pub proof fn lemma_pulses_two()
    ensures
        pulses(2) == pulse() + pulse(),
{
    reveal_with_fuel(pulses, 3);
    assert(pulses(2) =~= pulse() + pulse());
}

/// Extending a text by one character appends that character's two
/// nibbles to the data-line levels.
pub proof fn lemma_text_writes_push(text: Seq<char>, c: char, i: u8)
    ensures
        text_writes(text.push(c), i) == text_writes(text, i) + byte_writes(low_byte(c), i),
{
    assert(text.push(c).drop_last() =~= text);
    assert(text.push(c).last() == c);
}

/// Splitting a byte into nibbles keeps its bits: bit `i` of the high
/// nibble is bit `i + 4` of the byte, bit `i` of the low nibble is bit
/// `i` of the byte.
pub proof fn lemma_nibble_bits(b: u8)
    by (bit_vector)
    ensures
        bit_of((b & 0xF0) >> 4, 0) == bit_of(b, 4),
        bit_of((b & 0xF0) >> 4, 1) == bit_of(b, 5),
        bit_of((b & 0xF0) >> 4, 2) == bit_of(b, 6),
        bit_of((b & 0xF0) >> 4, 3) == bit_of(b, 7),
        bit_of(b & 0x0F, 0) == bit_of(b, 0),
        bit_of(b & 0x0F, 1) == bit_of(b, 1),
        bit_of(b & 0x0F, 2) == bit_of(b, 2),
        bit_of(b & 0x0F, 3) == bit_of(b, 3),
{
}

} // verus!
