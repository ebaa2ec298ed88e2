use vstd::prelude::*;

verus! {

// Data Register, UARTDR
/// Overrun error.
pub const DR_OE: u32 = 0x800;
/// Break error.
pub const DR_BE: u32 = 0x400;
/// Parity error.
pub const DR_PE: u32 = 0x200;
/// Framing error.
pub const DR_FE: u32 = 0x100;

// Flag Register, UARTFR
/// Transmit FIFO is empty.
pub const FR_TXFE: u32 = 0x80;
/// Receive FIFO is full.
pub const FR_RXFF: u32 = 0x40;
/// Transmit FIFO is full.
pub const FR_TXFF: u32 = 0x20;
/// Receive FIFO is empty.
pub const FR_RXFE: u32 = 0x10;
/// UART busy.
pub const FR_BUSY: u32 = 0x8;

// Line Control Register, UARTLCR_H
/// Stick parity select.
pub const LCR_SPS: u32 = 0x80;
/// Word length of 5 bits.
pub const LCR_WLEN_5BITS: u32 = 0x00;
/// Word length of 6 bits.
pub const LCR_WLEN_6BITS: u32 = 0x20;
/// Word length of 7 bits.
pub const LCR_WLEN_7BITS: u32 = 0x40;
/// Word length of 8 bits.
pub const LCR_WLEN_8BITS: u32 = 0x60;
/// Enable FIFOs.
pub const LCR_FEN: u32 = 0x10;
/// Two stop bits select.
pub const LCR_STP2: u32 = 0x8;
/// Even parity select.
pub const LCR_EPS: u32 = 0x4;
/// Parity enable.
pub const LCR_PEN: u32 = 0x2;
/// Send break.
pub const LCR_BRK: u32 = 0x1;

// Control Register, UARTCR
/// Receive enable.
pub const CR_RXE: u32 = 0x200;
/// Transmit enable.
pub const CR_TXE: u32 = 0x100;
/// UART enable.
pub const CR_UARTEN: u32 = 0x1;

/// Whether every bit of `mask` is set in `value`.
pub open spec fn has_flags(value: u32, mask: u32) -> bool {
    value & mask == mask
}

/// The PL011 registers that the driver writes.
#[derive(Debug, Clone, Copy, PartialEq, Eq, Structural)]
pub enum Register {
    /// Data Register, UARTDR.
    Data,
    /// Receive Status Register/Error Clear Register, UARTRSR/UARTECR.
    ReceiveStatus,
    /// Integer Baud Rate Register, UARTIBRD.
    IntegerBaudRate,
    /// Fractional Baud Rate Register, UARTFBRD.
    FractionalBaudRate,
    /// Line Control Register, UARTLCR_H.
    LineControl,
    /// Control Register, UARTCR.
    Control,
}

impl Register {
    /// Offset of the register from the base of the PL011 register block.
    pub open spec fn offset_spec(self) -> usize {
        match self {
            Register::Data => 0x000,
            Register::ReceiveStatus => 0x004,
            Register::IntegerBaudRate => 0x024,
            Register::FractionalBaudRate => 0x028,
            Register::LineControl => 0x02c,
            Register::Control => 0x030,
        }
    }

    /// Offset of the register from the base of the PL011 register block.
    pub fn offset(&self) -> (r: usize)
        ensures
            r == self.offset_spec(),
    {
        match self {
            Register::Data => 0x000,
            Register::ReceiveStatus => 0x004,
            Register::IntegerBaudRate => 0x024,
            Register::FractionalBaudRate => 0x028,
            Register::LineControl => 0x02c,
            Register::Control => 0x030,
        }
    }
}

/// A value to be written to a register.
#[derive(Debug, Clone, Copy, PartialEq, Eq, Structural)]
pub struct RegisterWrite {
    pub register: Register,
    pub value: u32,
}

/// The register values after the writes `writes` were made, in order, to a
/// register block that held `regs`.
pub open spec fn apply_writes(regs: Map<Register, u32>, writes: Seq<RegisterWrite>) -> Map<
    Register,
    u32,
>
    decreases writes.len(),
{
    if writes.len() == 0 {
        regs
    } else {
        apply_writes(regs, writes.drop_last()).insert(writes.last().register, writes.last().value)
    }
}

} // verus!
