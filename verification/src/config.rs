use vstd::prelude::*;
use crate::registers::{
    LCR_EPS, LCR_FEN, LCR_PEN, LCR_SPS, LCR_STP2, LCR_WLEN_5BITS, LCR_WLEN_6BITS,
    LCR_WLEN_7BITS, LCR_WLEN_8BITS,
};

verus! {

/// Data bit count.
#[derive(Debug, Clone, Copy, PartialEq, Eq, Structural)]
pub enum DataBits {
    Bits5,
    Bits6,
    Bits7,
    Bits8,
}

/// Parity.
#[derive(Debug, Clone, Copy, PartialEq, Eq, Structural)]
pub enum Parity {
    /// No parity bit.
    NoParity,
    Even,
    Odd,
    One,
    Zero,
}

/// Stop bit count.
#[derive(Debug, Clone, Copy, PartialEq, Eq, Structural)]
pub enum StopBits {
    One,
    Two,
}

/// UART line config structure.
#[derive(Debug, Clone, Copy, PartialEq, Eq, Structural)]
pub struct LineConfig {
    pub data_bits: DataBits,
    pub parity: Parity,
    pub stop_bits: StopBits,
}

impl DataBits {
    /// The number of data bits in a frame.
    pub open spec fn count(self) -> int {
        match self {
            DataBits::Bits5 => 5,
            DataBits::Bits6 => 6,
            DataBits::Bits7 => 7,
            DataBits::Bits8 => 8,
        }
    }

    /// The word length field of UARTLCR_H for this data bit count.
    pub open spec fn word_length_bits(self) -> u32 {
        match self {
            DataBits::Bits5 => LCR_WLEN_5BITS,
            DataBits::Bits6 => LCR_WLEN_6BITS,
            DataBits::Bits7 => LCR_WLEN_7BITS,
            DataBits::Bits8 => LCR_WLEN_8BITS,
        }
    }
}

impl Parity {
    /// The parity bits (PEN, EPS, SPS) of UARTLCR_H for this parity.
    pub open spec fn parity_bits(self) -> u32 {
        match self {
            Parity::NoParity => 0,
            Parity::Even => LCR_PEN | LCR_EPS,
            Parity::Odd => LCR_PEN,
            Parity::One => LCR_PEN | LCR_SPS,
            Parity::Zero => LCR_PEN | LCR_EPS | LCR_SPS,
        }
    }
}

impl StopBits {
    /// The stop bit field of UARTLCR_H for this stop bit count.
    pub open spec fn stop_bits_bits(self) -> u32 {
        match self {
            StopBits::One => 0,
            StopBits::Two => LCR_STP2,
        }
    }
}

impl LineConfig {
    /// The UARTLCR_H value for this line configuration, with the FIFOs enabled.
    pub open spec fn line_control_spec(self) -> u32 {
        self.data_bits.word_length_bits() | self.parity.parity_bits()
            | self.stop_bits.stop_bits_bits() | LCR_FEN
    }

    /// Computes the Line Control Register value for this configuration.
    pub fn line_control(&self) -> (r: u32)
        ensures
            r == self.line_control_spec(),
    {
        let word_length = match self.data_bits {
            DataBits::Bits5 => LCR_WLEN_5BITS,
            DataBits::Bits6 => LCR_WLEN_6BITS,
            DataBits::Bits7 => LCR_WLEN_7BITS,
            DataBits::Bits8 => LCR_WLEN_8BITS,
        };
        let parity = match self.parity {
            Parity::NoParity => 0,
            Parity::Even => LCR_PEN | LCR_EPS,
            Parity::Odd => LCR_PEN,
            Parity::One => LCR_PEN | LCR_SPS,
            Parity::Zero => LCR_PEN | LCR_EPS | LCR_SPS,
        };
        let stop_bits = match self.stop_bits {
            StopBits::One => 0,
            StopBits::Two => LCR_STP2,
        };
        word_length | parity | stop_bits | LCR_FEN
    }
}

proof fn lemma_line_control_bits(w: u32, p: u32, s: u32)
    by (bit_vector)
    requires
        w == 0 || w == 0x20 || w == 0x40 || w == 0x60,
        p == 0 || p == 6 || p == 2 || p == 0x82 || p == 0x86,
        s == 0 || s == 8,
    ensures
        ((w | p | s | 0x10) >> 5u32) & 3 == w >> 5u32,
        (w | p | s | 0x10) & 0x10 == 0x10,
        (w | p | s | 0x10) & 1 == 0,
        ((w | p | s | 0x10) & 2 == 2) == (p != 0),
        ((w | p | s | 0x10) & 4 == 4) == (p & 4 == 4),
        ((w | p | s | 0x10) & 0x80 == 0x80) == (p & 0x80 == 0x80),
        ((w | p | s | 0x10) & 8 == 8) == (s == 8),
        ((w | p | s | 0x10) & 0x10 != 0),
        ((w | p | s | 0x10) & 2 != 0) == (p != 0),
        ((w | p | s | 0x10) & 4 != 0) == (p & 4 == 4),
        ((w | p | s | 0x10) & 0x80 != 0) == (p & 0x80 == 0x80),
        ((w | p | s | 0x10) & 8 != 0) == (s == 8),
        (w | p | s | 0x10) < 256,
{
}

/// The UARTLCR_H value encodes the configuration field by field: the word
/// length field (bits 5-6) holds the data bit count minus 5, the FIFOs are
/// enabled, no break is sent, parity is enabled unless the parity is
/// `NoParity`, even parity is selected for `Even` and `Zero`, stick parity for
/// `One` and `Zero`, and two stop bits for `Two`; no bit above bit 7 is set.
pub proof fn lemma_line_control_fields(config: LineConfig)
    ensures
        ({
            let v = config.line_control_spec();
            &&& config.data_bits == DataBits::Bits5 ==> (v >> 5u32) & 3 == 0
            &&& config.data_bits == DataBits::Bits6 ==> (v >> 5u32) & 3 == 1
            &&& config.data_bits == DataBits::Bits7 ==> (v >> 5u32) & 3 == 2
            &&& config.data_bits == DataBits::Bits8 ==> (v >> 5u32) & 3 == 3
            &&& (v >> 5u32) & 3 == config.data_bits.count() - 5
            &&& v & 0x10 != 0
            &&& v & 0x01 == 0
            &&& (v & 0x02 != 0) == (config.parity != Parity::NoParity)
            &&& (v & 0x04 != 0) == (config.parity == Parity::Even || config.parity
                == Parity::Zero)
            &&& (v & 0x80 != 0) == (config.parity == Parity::One || config.parity
                == Parity::Zero)
            &&& (v & 0x08 != 0) == (config.stop_bits == StopBits::Two)
            &&& v < 256
        }),
{
    let w = config.data_bits.word_length_bits();
    let p = config.parity.parity_bits();
    let s = config.stop_bits.stop_bits_bits();
    let c: u32 = config.data_bits.count() as u32;
    assert(w >> 5u32 == c - 5 && (w == 0 || w == 0x20 || w == 0x40 || w == 0x60)) by (bit_vector)
        requires
            (w == 0 && c == 5) || (w == 0x20 && c == 6) || (w == 0x40 && c == 7) || (w == 0x60
                && c == 8),
    ;
    assert(LCR_PEN | LCR_EPS == 6 && LCR_PEN | LCR_SPS == 0x82 && LCR_PEN | LCR_EPS | LCR_SPS
        == 0x86) by (bit_vector);
    assert(p == 0 || p == 6 || p == 2 || p == 0x82 || p == 0x86);
    assert((p & 4 == 4) == (p == 6 || p == 0x86) && (p & 0x80 == 0x80) == (p == 0x82 || p
        == 0x86)) by (bit_vector)
        requires
            p == 0 || p == 6 || p == 2 || p == 0x82 || p == 0x86,
    ;
    lemma_line_control_bits(w, p, s);
}

} // verus!
