use vstd::prelude::*;
use crate::baud::{baud_rate_valid, calculate_baud_rate_divisor, divisor_bits};
use crate::config::LineConfig;
use crate::error::Error;
use crate::registers::{
    apply_writes, has_flags, Register, RegisterWrite, CR_RXE, CR_TXE, CR_UARTEN, DR_BE, DR_FE,
    DR_OE, DR_PE, FR_BUSY, FR_RXFE, FR_RXFF, FR_TXFE, FR_TXFF,
};

verus! {

/// UARTCR value of an enabled UART: receive, transmit and UART enable.
pub open spec fn control_enabled() -> u32 {
    CR_RXE | CR_TXE | CR_UARTEN
}

/// The writes that configure and enable the UART, in order: clear the
/// receive errors, disable the UART, set the baud rate divisors and the
/// line control, then enable reception, transmission and the UART.
pub open spec fn enable_writes_spec(ibrd: u32, fbrd: u32, line_control: u32) -> Seq<RegisterWrite> {
    seq![
        RegisterWrite { register: Register::ReceiveStatus, value: 0 },
        RegisterWrite { register: Register::Control, value: 0 },
        RegisterWrite { register: Register::IntegerBaudRate, value: ibrd },
        RegisterWrite { register: Register::FractionalBaudRate, value: fbrd },
        RegisterWrite { register: Register::LineControl, value: line_control },
        RegisterWrite { register: Register::Control, value: control_enabled() },
    ]
}

/// The register writes that configure the UART with `config`, a baud rate
/// and a reference clock frequency, and enable it; or the error for a baud
/// rate that cannot be configured.
pub fn enable_writes(config: LineConfig, baud_rate: u32, sysclk: u32) -> (r: Result<
    [RegisterWrite; 6],
    Error,
>)
    ensures
        match r {
            Ok(writes) => {
                &&& baud_rate_valid(baud_rate, sysclk)
                &&& writes@ == enable_writes_spec(
                    (divisor_bits(baud_rate, sysclk) / 64) as u32,
                    (divisor_bits(baud_rate, sysclk) % 64) as u32,
                    config.line_control_spec(),
                )
            },
            Err(e) => !baud_rate_valid(baud_rate, sysclk) && e == Error::InvalidParameter,
        },
{
    let (ibrd, fbrd) = match calculate_baud_rate_divisor(baud_rate, sysclk) {
        Ok(divisor) => divisor,
        Err(e) => return Err(e),
    };
    let line_control = config.line_control();
    let writes = [
        RegisterWrite { register: Register::ReceiveStatus, value: 0 },
        RegisterWrite { register: Register::Control, value: 0 },
        RegisterWrite { register: Register::IntegerBaudRate, value: ibrd },
        RegisterWrite { register: Register::FractionalBaudRate, value: fbrd },
        RegisterWrite { register: Register::LineControl, value: line_control },
        RegisterWrite { register: Register::Control, value: CR_RXE | CR_TXE | CR_UARTEN },
    ];
    assert(writes@ =~= enable_writes_spec(ibrd, fbrd, line_control));
    Ok(writes)
}

/// The register write that disables the UART.
pub fn disable_write() -> (w: RegisterWrite)
    ensures
        w == (RegisterWrite { register: Register::Control, value: 0 }),
{
    RegisterWrite { register: Register::Control, value: 0 }
}

/// The register write that transmits `word`.
pub open spec fn write_word_spec(word: u8) -> RegisterWrite {
    RegisterWrite { register: Register::Data, value: word as u32 }
}

/// The register write that transmits a single byte.
pub fn write_word(word: u8) -> (w: RegisterWrite)
    ensures
        w == write_word_spec(word),
{
    RegisterWrite { register: Register::Data, value: word as u32 }
}

/// What reading `dr` from UARTDR gives: the first of overrun, break,
/// parity and framing error whose flag is set, else the received byte.
pub open spec fn read_word_spec(dr: u32) -> Result<u8, Error> {
    if has_flags(dr, DR_OE) {
        Err(Error::Overrun)
    } else if has_flags(dr, DR_BE) {
        Err(Error::Break)
    } else if has_flags(dr, DR_PE) {
        Err(Error::Parity)
    } else if has_flags(dr, DR_FE) {
        Err(Error::Framing)
    } else {
        Ok((dr as int % 256) as u8)
    }
}

/// Interprets a value read from the Data Register as a received byte or
/// the receive error that it reports.
pub fn read_word(dr: u32) -> (r: Result<u8, Error>)
    ensures
        r == read_word_spec(dr),
        dr & 0x800 != 0 ==> r == Err::<u8, Error>(Error::Overrun),
        dr & 0xc00 == 0x400 ==> r == Err::<u8, Error>(Error::Break),
        dr & 0xe00 == 0x200 ==> r == Err::<u8, Error>(Error::Parity),
        dr & 0xf00 == 0x100 ==> r == Err::<u8, Error>(Error::Framing),
        dr & 0xf00 == 0 ==> r == Ok::<u8, Error>((dr % 256) as u8),
{
    proof {
        lemma_read_word_reports_first_error(dr);
    }
    if dr & DR_OE == DR_OE {
        return Err(Error::Overrun);
    } else if dr & DR_BE == DR_BE {
        return Err(Error::Break);
    } else if dr & DR_PE == DR_PE {
        return Err(Error::Parity);
    } else if dr & DR_FE == DR_FE {
        return Err(Error::Framing);
    }
    let word = dr as u8;
    assert(word == (dr as int % 256) as u8) by (bit_vector)
        requires
            word == dr as u8,
    ;
    Ok(word)
}

/// A value read from the Flag Register, UARTFR.
#[derive(Debug, Clone, Copy, PartialEq, Eq, Structural)]
pub struct Flags {
    pub bits: u32,
}

impl Flags {
    /// Whether the receive FIFO is empty.
    pub open spec fn rx_fifo_empty(self) -> bool {
        has_flags(self.bits, FR_RXFE)
    }

    /// Whether the receive FIFO is full.
    pub open spec fn rx_fifo_full(self) -> bool {
        has_flags(self.bits, FR_RXFF)
    }

    /// Whether the transmit FIFO is empty.
    pub open spec fn tx_fifo_empty(self) -> bool {
        has_flags(self.bits, FR_TXFE)
    }

    /// Whether the transmit FIFO is full.
    pub open spec fn tx_fifo_full(self) -> bool {
        has_flags(self.bits, FR_TXFF)
    }

    /// Whether the UART is busy transmitting.
    pub open spec fn busy(self) -> bool {
        has_flags(self.bits, FR_BUSY)
    }

    /// Check if receive FIFO is empty.
    pub fn is_rx_fifo_empty(&self) -> (r: bool)
        ensures
            r == self.rx_fifo_empty(),
            r == (self.bits & 0x10 != 0),
    {
        proof {
            lemma_flags_are_single_bits(self.bits);
        }
        self.bits & FR_RXFE == FR_RXFE
    }

    /// Check if receive FIFO is full.
    pub fn is_rx_fifo_full(&self) -> (r: bool)
        ensures
            r == self.rx_fifo_full(),
            r == (self.bits & 0x40 != 0),
    {
        proof {
            lemma_flags_are_single_bits(self.bits);
        }
        self.bits & FR_RXFF == FR_RXFF
    }

    /// Check if transmit FIFO is empty.
    pub fn is_tx_fifo_empty(&self) -> (r: bool)
        ensures
            r == self.tx_fifo_empty(),
            r == (self.bits & 0x80 != 0),
    {
        proof {
            lemma_flags_are_single_bits(self.bits);
        }
        self.bits & FR_TXFE == FR_TXFE
    }

    /// Check if transmit FIFO is full.
    pub fn is_tx_fifo_full(&self) -> (r: bool)
        ensures
            r == self.tx_fifo_full(),
            r == (self.bits & 0x20 != 0),
    {
        proof {
            lemma_flags_are_single_bits(self.bits);
        }
        self.bits & FR_TXFF == FR_TXFF
    }

    /// Check if UART is busy.
    pub fn is_busy(&self) -> (r: bool)
        ensures
            r == self.busy(),
            r == (self.bits & 0x8 != 0),
    {
        proof {
            lemma_flags_are_single_bits(self.bits);
        }
        self.bits & FR_BUSY == FR_BUSY
    }
}

/// A byte written to the Data Register and read back from it with no error
/// flag set is the same byte.
pub proof fn lemma_written_word_reads_back(word: u8)
    ensures
        read_word_spec(write_word_spec(word).value) == Ok::<u8, Error>(word),
{
    let v = word as u32;
    assert(v & DR_OE != DR_OE && v & DR_BE != DR_BE && v & DR_PE != DR_PE && v & DR_FE != DR_FE
        && (v as int % 256) as u8 == word) by (bit_vector)
        requires
            v == word as u32,
    ;
}

/// After the enable writes, the UART holds the configuration: the receive
/// errors are cleared, the divisor registers hold the divisor, UARTLCR_H
/// holds the line control value and UARTCR enables reception, transmission
/// and the UART; and the UART was disabled while it was configured.
pub proof fn lemma_enable_configures(
    regs: Map<Register, u32>,
    config: LineConfig,
    baud_rate: u32,
    sysclk: u32,
)
    requires
        baud_rate_valid(baud_rate, sysclk),
    ensures
        ({
            let ibrd = (divisor_bits(baud_rate, sysclk) / 64) as u32;
            let fbrd = (divisor_bits(baud_rate, sysclk) % 64) as u32;
            let writes = enable_writes_spec(ibrd, fbrd, config.line_control_spec());
            let after = apply_writes(regs, writes);
            &&& after[Register::ReceiveStatus] == 0
            &&& after[Register::IntegerBaudRate] == ibrd
            &&& after[Register::FractionalBaudRate] == fbrd
            &&& after[Register::LineControl] == config.line_control_spec()
            &&& after[Register::Control] == control_enabled()
            &&& after[Register::Control] == 0x301
            &&& forall|r: Register|
                #![trigger after[r]]
                !writes.map_values(|w: RegisterWrite| w.register).contains(r) ==> after[r]
                    == regs[r]
            &&& apply_writes(regs, writes.take(2))[Register::Control] == 0
            &&& writes.skip(2).take(3).map_values(|w: RegisterWrite| w.register) == seq![
                Register::IntegerBaudRate,
                Register::FractionalBaudRate,
                Register::LineControl,
            ]
        }),
{
    let ibrd = (divisor_bits(baud_rate, sysclk) / 64) as u32;
    let fbrd = (divisor_bits(baud_rate, sysclk) % 64) as u32;
    let writes = enable_writes_spec(ibrd, fbrd, config.line_control_spec());
    reveal_with_fuel(apply_writes, 7);
    assert(CR_RXE | CR_TXE | CR_UARTEN == 0x301) by (bit_vector);
    assert(writes.drop_last() =~= writes.take(5));
    assert(writes.take(5).drop_last() =~= writes.take(4));
    assert(writes.take(4).drop_last() =~= writes.take(3));
    assert(writes.take(3).drop_last() =~= writes.take(2));
    assert(writes.take(2).drop_last() =~= writes.take(1));
    assert(writes.take(1).drop_last() =~= writes.take(0));
    assert(writes.skip(2).take(3).map_values(|w: RegisterWrite| w.register) =~= seq![
        Register::IntegerBaudRate,
        Register::FractionalBaudRate,
        Register::LineControl,
    ]);
    let regs_of = writes.map_values(|w: RegisterWrite| w.register);
    assert forall|r: Register| !regs_of.contains(r) implies apply_writes(regs, writes)[r]
        == regs[r] by {
        assert(regs_of[0] == Register::ReceiveStatus);
        assert(regs_of[1] == Register::Control);
        assert(regs_of[2] == Register::IntegerBaudRate);
        assert(regs_of[3] == Register::FractionalBaudRate);
        assert(regs_of[4] == Register::LineControl);
    }
}

/// Each status query of the Flag Register reads one bit and no other:
/// receive FIFO empty is bit 4 (RXFE), receive FIFO full bit 6 (RXFF),
/// transmit FIFO empty bit 7 (TXFE), transmit FIFO full bit 5 (TXFF) and
/// busy bit 3 (BUSY).
pub proof fn lemma_flags_are_single_bits(bits: u32)
    ensures
        (Flags { bits }).rx_fifo_empty() <==> bits & 0x10 != 0,
        (Flags { bits }).rx_fifo_full() <==> bits & 0x40 != 0,
        (Flags { bits }).tx_fifo_empty() <==> bits & 0x80 != 0,
        (Flags { bits }).tx_fifo_full() <==> bits & 0x20 != 0,
        (Flags { bits }).busy() <==> bits & 0x8 != 0,
{
    assert((bits & 0x10 == 0x10) == (bits & 0x10 != 0) && (bits & 0x40 == 0x40) == (bits & 0x40
        != 0) && (bits & 0x80 == 0x80) == (bits & 0x80 != 0) && (bits & 0x20 == 0x20) == (bits
        & 0x20 != 0) && (bits & 0x8 == 0x8) == (bits & 0x8 != 0)) by (bit_vector);
}

/// A value read from the Data Register reports the first error whose flag
/// is set, in the order overrun (bit 11), break (bit 10), parity (bit 9),
/// framing (bit 8), whatever the other bits hold; with none of these bits
/// set it holds the received byte in bits 0-7.
pub proof fn lemma_read_word_reports_first_error(dr: u32)
    ensures
        dr & 0x800 != 0 ==> read_word_spec(dr) == Err::<u8, Error>(Error::Overrun),
        dr & 0xc00 == 0x400 ==> read_word_spec(dr) == Err::<u8, Error>(Error::Break),
        dr & 0xe00 == 0x200 ==> read_word_spec(dr) == Err::<u8, Error>(Error::Parity),
        dr & 0xf00 == 0x100 ==> read_word_spec(dr) == Err::<u8, Error>(Error::Framing),
        dr & 0xf00 == 0 ==> read_word_spec(dr) == Ok::<u8, Error>((dr % 256) as u8),
{
    assert((dr & 0x800 == 0x800) == (dr & 0x800 != 0)) by (bit_vector);
    assert(dr & 0xc00 == 0x400 ==> dr & 0x800 != 0x800 && dr & 0x400 == 0x400) by (bit_vector);
    assert(dr & 0xe00 == 0x200 ==> dr & 0x800 != 0x800 && dr & 0x400 != 0x400 && dr & 0x200
        == 0x200) by (bit_vector);
    assert(dr & 0xf00 == 0x100 ==> dr & 0x800 != 0x800 && dr & 0x400 != 0x400 && dr & 0x200
        != 0x200 && dr & 0x100 == 0x100) by (bit_vector);
    assert(dr & 0xf00 == 0 ==> dr & 0x800 != 0x800 && dr & 0x400 != 0x400 && dr & 0x200 != 0x200
        && dr & 0x100 != 0x100) by (bit_vector);
    assert((dr as int % 256) as u8 == (dr % 256) as u8);
}

} // verus!
