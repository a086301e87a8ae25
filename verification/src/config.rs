//! Serial configuration and its translation into register field values.

use vstd::prelude::*;

use crate::hw::lcr_bits;
use crate::hw::{lcr_char_len_eight, lcr_char_len_five, lcr_char_len_seven, lcr_char_len_six};
use crate::hw::{lcr_parity_even, lcr_parity_none, lcr_parity_odd};

verus! {

/// Serial word length settings.
#[derive(Clone, Copy, Debug, PartialEq, Eq, Hash, Structural)]
pub enum WordLength {
    /// 5 bits per word.
    Five,
    /// 6 bits per word.
    Six,
    /// 7 bits per word.
    Seven,
    /// 8 bits per word.
    Eight,
}

/// Serial parity bit settings.
#[derive(Clone, Copy, Debug, PartialEq, Eq, Hash, Structural)]
pub enum Parity {
    /// No parity checks.
    NoParity,
    /// Odd parity.
    Odd,
    /// Even parity.
    Even,
}

/// Stop bit settings.
#[derive(Clone, Copy, Debug, PartialEq, Eq, Hash, Structural)]
pub enum StopBits {
    /// 1 stop bit.
    One,
    /// 2 stop bits, or 1.5 bits when the word length is five.
    Two,
}

/// Serial configuration structure.
#[derive(Clone, Copy, Debug, PartialEq, Eq, Hash, Structural)]
pub struct Config {
    /// Serial baud rate in bits per second.
    pub baudrate: u32,
    /// Word length, can be 5, 6, 7 or 8.
    pub wordlength: WordLength,
    /// Parity checks, can be `None`, `Odd` or `Even`.
    pub parity: Parity,
    /// Number of stop bits, can be `One` or `Two`.
    pub stopbits: StopBits,
}

impl Config {
    /// A configuration the driver accepts: the baud rate is positive (the
    /// divisor computation divides by it) and small enough that the
    /// rounding term stays within the clock's integer range.
    pub open spec fn wf(&self) -> bool {
        0 < self.baudrate <= 0x0fff_ffff
    }
}

impl Default for Config {
    /// The default configuration: 115200 baud, 8 data bits, no parity, one
    /// stop bit.
    fn default() -> (r: Self)
        ensures
            r == (Config {
                baudrate: 115200u32,
                wordlength: WordLength::Eight,
                parity: Parity::NoParity,
                stopbits: StopBits::One,
            }),
            r.wf(),
    {
        Config {
            baudrate: 115200,
            wordlength: WordLength::Eight,
            parity: Parity::NoParity,
            stopbits: StopBits::One,
        }
    }
}

/// The divisor programmed for input clock `clock` (Hz) and baud rate `baud`:
/// `(clock + 8·baud) / (16·baud)`, which rounds the exact ratio
/// `clock / (16·baud)` to the nearest integer, truncated to 16 bits.
pub open spec fn spec_divisor(clock: u32, baud: u32) -> u16
    recommends
        baud > 0,
{
    (((clock + 8 * baud) / (16 * baud)) % 0x10000) as u16
}

/// Compute the divisor latch value for an input clock and a baud rate.
pub fn compute_divisor(clock: u32, baud: u32) -> (r: u16)
    requires
        baud > 0,
        clock + 8 * baud <= u32::MAX,
        16 * baud <= u32::MAX,
    ensures
        r == spec_divisor(clock, baud),
{
    let q: u32 = (clock + 8 * baud) / (16 * baud);
    proof {
        assert(q as u16 == q % 0x10000) by (bit_vector);
    }
    q as u16
}

/// The code held in LCR bits 0..2 for a word length.
pub open spec fn spec_char_len_code(w: WordLength) -> u8 {
    match w {
        WordLength::Five => 0x00,
        WordLength::Six => 0x01,
        WordLength::Seven => 0x02,
        WordLength::Eight => 0x03,
    }
}

/// The code held in LCR bit 2 for a stop-bit setting: clear for one stop
/// bit, set for two (1.5 when the word length is five).
pub open spec fn spec_stop_code(s: StopBits) -> u8 {
    match s {
        StopBits::One => 0x00,
        StopBits::Two => 0x04,
    }
}

/// The code held in LCR bits 3..5 for a parity setting.
pub open spec fn spec_parity_code(p: Parity) -> u8 {
    match p {
        Parity::NoParity => 0x00,
        Parity::Even => 0x10,
        Parity::Odd => 0x18,
    }
}

/// The LCR line-settings field (bits 0..5) for a configuration triple.
pub open spec fn spec_line_field(w: WordLength, s: StopBits, p: Parity) -> u8 {
    spec_char_len_code(w) | spec_stop_code(s) | spec_parity_code(p)
}

/// The byte a read-modify-write of the line control register leaves behind:
/// the line-settings field replaces bits 0..5, the rest of `old` stays.
pub open spec fn spec_encoded_lcr(old: u8, w: WordLength, s: StopBits, p: Parity) -> u8 {
    (old & 0xe0) | spec_line_field(w, s, p)
}

/// The triple a line-settings field decodes to.  Field values that no
/// triple produces (parity code 0b01) decode to no parity.
pub open spec fn spec_decode_line_field(f: u8) -> (WordLength, StopBits, Parity) {
    (
        if f & 0x03 == 0x00 {
            WordLength::Five
        } else if f & 0x03 == 0x01 {
            WordLength::Six
        } else if f & 0x03 == 0x02 {
            WordLength::Seven
        } else {
            WordLength::Eight
        },
        if f & 0x04 == 0x00 {
            StopBits::One
        } else {
            StopBits::Two
        },
        if f & 0x18 == 0x10 {
            Parity::Even
        } else if f & 0x18 == 0x18 {
            Parity::Odd
        } else {
            Parity::NoParity
        },
    )
}

/// Each component of the triple can be read back out of the field by
/// masking its own bits.
proof fn lemma_line_field_bits(c: u8, s: u8, p: u8)
    by (bit_vector)
    requires
        c < 4,
        s == 0 || s == 4,
        p == 0 || p == 0x10 || p == 0x18,
    ensures
        (c | s | p) & 0x03 == c,
        (c | s | p) & 0x04 == s,
        (c | s | p) & 0x18 == p,
{
}

/// The line-settings mapping is total on the 4 x 2 x 3 configuration
/// triples and round-trippable: decoding the encoded field gives the
/// triple back.
pub proof fn lemma_line_field_round_trip(w: WordLength, s: StopBits, p: Parity)
    ensures
        spec_decode_line_field(spec_line_field(w, s, p)) == (w, s, p),
{
    lemma_line_field_bits(spec_char_len_code(w), spec_stop_code(s), spec_parity_code(p));
}

/// The line-settings mapping is injective: distinct configuration triples
/// produce distinct field values.
pub proof fn lemma_line_field_injective(
    w1: WordLength,
    s1: StopBits,
    p1: Parity,
    w2: WordLength,
    s2: StopBits,
    p2: Parity,
)
    requires
        spec_line_field(w1, s1, p1) == spec_line_field(w2, s2, p2),
    ensures
        w1 == w2,
        s1 == s2,
        p1 == p2,
{
    lemma_line_field_round_trip(w1, s1, p1);
    lemma_line_field_round_trip(w2, s2, p2);
}

/// Apply a configuration's word length, stop bits and parity to a
/// line-control setting, through the `uart16550` line-control operations.
pub fn encode_line_control(
    lcr: uart16550::LineControl,
    w: WordLength,
    s: StopBits,
    p: Parity,
) -> (r: uart16550::LineControl)
    ensures
        lcr_bits(r) == spec_encoded_lcr(lcr_bits(lcr), w, s, p),
{
    let with_len = match w {
        WordLength::Five => lcr_char_len_five(lcr),
        WordLength::Six => lcr_char_len_six(lcr),
        WordLength::Seven => lcr_char_len_seven(lcr),
        WordLength::Eight => lcr_char_len_eight(lcr),
    };
    let one_stop_bit = match s {
        StopBits::One => true,
        StopBits::Two => false,
    };
    let with_stop = with_len.set_one_stop_bit(one_stop_bit);
    let with_parity = match p {
        Parity::NoParity => lcr_parity_none(with_stop),
        Parity::Odd => lcr_parity_odd(with_stop),
        Parity::Even => lcr_parity_even(with_stop),
    };
    proof {
        lemma_lcr_compose(
            lcr_bits(lcr),
            lcr_bits(with_len),
            lcr_bits(with_stop),
            lcr_bits(with_parity),
            spec_char_len_code(w),
            spec_stop_code(s),
            spec_parity_code(p),
        );
    }
    with_parity
}

/// Composing the three masked writes — character length into bits 0..2,
/// the stop-bit select into bit 2, the parity code into bits 3..5 — leaves
/// exactly the encoded field in bits 0..5 and the high bits untouched.
/// `b1`, `b2` and `b3` are the bytes after each write in turn.
proof fn lemma_lcr_compose(b0: u8, b1: u8, b2: u8, b3: u8, c: u8, s: u8, p: u8)
    by (bit_vector)
    requires
        c < 4,
        s == 0 || s == 4,
        p == 0 || p == 0x10 || p == 0x18,
        (c == 0 && b1 == (b0 & 0xfc)) || b1 == ((b0 & 0xfc) | c),
        (s == 0 && b2 == (b1 & 0xfb)) || (s == 4 && b2 == (b1 | 0x04)),
        (p == 0 && b3 == (b2 & 0xe7)) || b3 == ((b2 & 0xe7) | p),
    ensures
        b3 == ((b0 & 0xe0) | (c | s | p)),
{
}

} // verus!
