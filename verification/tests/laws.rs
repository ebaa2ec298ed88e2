use pl011_uart::baud::calculate_baud_rate_divisor;
use pl011_uart::config::{DataBits, LineConfig, Parity, StopBits};
use pl011_uart::driver::{enable_writes, read_word, write_word, Flags};
use pl011_uart::error::{Error, NbError, SerialErrorKind};
use pl011_uart::ident::Identification;
use pl011_uart::registers::{Register, RegisterWrite};
use pl011_uart::serial::{
    flush_step, serial_read_data, serial_read_ready, serial_write, BufferRead, BufferWrite,
};

#[test]
fn divisor_exact_values() {
    // 4 MHz / (16 * 230400) = 1.085 = 1 + 5/64 (rounded)
    assert_eq!(Ok((1, 5)), calculate_baud_rate_divisor(230400, 4_000_000));
    // 24 MHz / (16 * 115200) = 13.02 = 13 + 1/64
    assert_eq!(Ok((13, 1)), calculate_baud_rate_divisor(115200, 24_000_000));
}

#[test]
fn divisor_limits() {
    // Smallest divisor 1.0: sysclk = 16 * baud.
    assert_eq!(Ok((1, 0)), calculate_baud_rate_divisor(1000, 16_000));
    // Just under 1.0 rounds below 64ths of 1.
    assert_eq!(Err(Error::InvalidParameter), calculate_baud_rate_divisor(1000, 15_700));
    // Largest divisor 0xffff.0.
    assert_eq!(Ok((0xffff, 0)), calculate_baud_rate_divisor(1, 0xffff * 16));
    assert_eq!(Err(Error::InvalidParameter), calculate_baud_rate_divisor(1, 0xffff * 16 + 1));
    // sysclk * 8 overflows.
    assert_eq!(Err(Error::InvalidParameter), calculate_baud_rate_divisor(0x2000_0000, 0x2000_0000));
    assert_eq!(Ok((16, 0)), calculate_baud_rate_divisor(0x10_0000, 0x1000_0000));
}

#[test]
fn divisor_rounds_to_nearest() {
    for baud_rate in [110u32, 300, 1200, 9600, 38400, 57600, 115200, 230400, 460800] {
        for sysclk in [1_843_200u32, 4_000_000, 16_000_000, 24_000_000, 48_000_000] {
            if let Ok((ibrd, fbrd)) = calculate_baud_rate_divisor(baud_rate, sysclk) {
                let bits = i64::from(ibrd * 64 + fbrd);
                let diff = 2 * bits * i64::from(baud_rate) - 8 * i64::from(sysclk);
                assert!(diff.abs() <= i64::from(baud_rate));
                assert!((1..=0xffff).contains(&ibrd) && fbrd < 64);
            }
        }
    }
}

#[test]
fn line_control_fields() {
    let data = [DataBits::Bits5, DataBits::Bits6, DataBits::Bits7, DataBits::Bits8];
    let parities = [Parity::NoParity, Parity::Even, Parity::Odd, Parity::One, Parity::Zero];
    let stops = [StopBits::One, StopBits::Two];
    let mut seen = Vec::new();
    for (n, data_bits) in data.into_iter().enumerate() {
        for parity in parities {
            for stop_bits in stops {
                let v = LineConfig { data_bits, parity, stop_bits }.line_control();
                assert_eq!((v >> 5) & 3, n as u32);
                assert_eq!(v & 0x10, 0x10);
                assert_eq!(v & 0x01, 0);
                assert_eq!(v & 0x02 != 0, parity != Parity::NoParity);
                assert_eq!(v & 0x04 != 0, parity == Parity::Even || parity == Parity::Zero);
                assert_eq!(v & 0x80 != 0, parity == Parity::One || parity == Parity::Zero);
                assert_eq!(v & 0x08 != 0, stop_bits == StopBits::Two);
                assert!(!seen.contains(&v));
                seen.push(v);
            }
        }
    }
}

#[test]
fn enable_write_order() {
    let config = LineConfig { data_bits: DataBits::Bits8, parity: Parity::NoParity, stop_bits: StopBits::One };
    let writes = enable_writes(config, 115200, 4_000_000).unwrap();
    let registers: Vec<Register> = writes.iter().map(|w| w.register).collect();
    assert_eq!(
        registers,
        vec![
            Register::ReceiveStatus,
            Register::Control,
            Register::IntegerBaudRate,
            Register::FractionalBaudRate,
            Register::LineControl,
            Register::Control,
        ]
    );
    assert_eq!(writes[1].value, 0);
    assert_eq!(writes[5].value, 0x301);
}

#[test]
fn register_offsets() {
    assert_eq!(0x000, Register::Data.offset());
    assert_eq!(0x004, Register::ReceiveStatus.offset());
    assert_eq!(0x024, Register::IntegerBaudRate.offset());
    assert_eq!(0x028, Register::FractionalBaudRate.offset());
    assert_eq!(0x02c, Register::LineControl.offset());
    assert_eq!(0x030, Register::Control.offset());
}

#[test]
fn written_word_reads_back() {
    for word in 0..=255u8 {
        assert_eq!(Ok(word), read_word(write_word(word).value));
    }
}

#[test]
fn read_word_error_priority() {
    assert_eq!(Err(Error::Overrun), read_word(0xf00));
    assert_eq!(Err(Error::Break), read_word(0x700));
    assert_eq!(Err(Error::Parity), read_word(0x300));
    assert_eq!(Err(Error::Framing), read_word(0x1ff));
    // Bits above the error flags are ignored; the byte is bits 0-7.
    assert_eq!(Ok(0x5a), read_word(0xffff_f05a));
}

#[test]
fn identification_invalid() {
    let valid = Identification::from_registers([0x11, 0x10, 0x34, 0x00]);
    assert!(valid.is_valid());
    assert!(!Identification::from_registers([0x12, 0x10, 0x34, 0x00]).is_valid());
    assert!(!Identification::from_registers([0x11, 0x11, 0x34, 0x00]).is_valid());
    assert!(!Identification::from_registers([0x11, 0x10, 0x44, 0x00]).is_valid());
    assert!(!Identification::from_registers([0x11, 0x10, 0x35, 0x00]).is_valid());
    assert!(!Identification::from_registers([0x11, 0x10, 0x34, 0x01]).is_valid());
    let decoded = Identification::from_registers([0xffff_ff22, 0xffff_ff53, 0xffff_ff67, 0xffff_ff89]);
    assert_eq!(
        Identification { part_number: 0x322, designer: 0x75, revision_number: 0x6, configuration: 0x89 },
        decoded
    );
}

#[test]
fn serial_error_kinds_cover_every_error() {
    let errors = [Error::InvalidParameter, Error::Overrun, Error::Break, Error::Parity, Error::Framing];
    let kinds: Vec<SerialErrorKind> = errors.iter().map(|e| e.kind()).collect();
    assert!(!kinds.contains(&SerialErrorKind::Noise));
}

#[test]
fn serial_read_steps() {
    assert_eq!(Err(NbError::WouldBlock), serial_read_ready(Flags { bits: 0x10 }));
    assert_eq!(Ok(()), serial_read_ready(Flags { bits: 0xef }));
    assert_eq!(Ok(0x7e), serial_read_data(0x7e));
    assert_eq!(Err(NbError::Other(Error::Framing)), serial_read_data(0x17e));
}

#[test]
fn serial_write_when_not_full() {
    assert_eq!(
        Ok(RegisterWrite { register: Register::Data, value: 0x33 }),
        serial_write(Flags { bits: 0xdf }, 0x33)
    );
    assert_eq!(Err(NbError::WouldBlock), serial_write(Flags { bits: 0x20 }, 0x33));
}

#[test]
fn buffer_write_waits_while_full() {
    let buf = [1u8, 2, 3];
    let mut state = BufferWrite::new(buf.len());
    assert_eq!(None, state.result());
    assert_eq!(
        Some(RegisterWrite { register: Register::Data, value: 1 }),
        state.step(&buf, Flags { bits: 0 })
    );
    // The FIFO is full: byte 2 is not written and is offered again.
    assert_eq!(None, state.step(&buf, Flags { bits: 0x20 }));
    assert_eq!(None, state.result());
    assert_eq!(
        Some(RegisterWrite { register: Register::Data, value: 2 }),
        state.step(&buf, Flags { bits: 0x80 })
    );
    assert_eq!(None, state.result());
    assert_eq!(
        Some(RegisterWrite { register: Register::Data, value: 3 }),
        state.step(&buf, Flags { bits: 0 })
    );
    assert_eq!(Some(Ok(3)), state.result());
    assert_eq!(Some(Ok(0)), BufferWrite::new(0).result());
}

#[test]
fn blocking_write_sends_every_byte_in_order() {
    let buf = [10u8, 20, 30, 40];
    // The transmit FIFO is full on every other poll.
    let polls = [0u32, 0x20, 0x20, 0, 0x20, 0, 0, 0x20, 0];
    let mut sent = Vec::new();
    let mut state = BufferWrite::new(buf.len());
    let mut poll = 0;
    let result = loop {
        if let Some(result) = state.result() {
            break result;
        }
        if let Some(write) = state.step(&buf, Flags { bits: polls[poll] }) {
            sent.push(write.value as u8);
        }
        poll += 1;
    };
    assert_eq!(Ok(4), result);
    assert_eq!(vec![10u8, 20, 30, 40], sent);
}

#[test]
fn buffer_read_steps() {
    let mut buf = [0u8; 3];
    let mut state = BufferRead::new(buf.len());
    assert_eq!(None, state.step(&mut buf, Ok(7)));
    assert_eq!(None, state.step(&mut buf, Err(NbError::WouldBlock)));
    assert_eq!(None, state.result());
    assert_eq!(None, state.step(&mut buf, Ok(8)));
    assert_eq!(Some(Error::Parity), state.step(&mut buf, Err(NbError::Other(Error::Parity))));
    assert_eq!([7, 8, 0], buf);
    assert_eq!(None, state.step(&mut buf, Ok(9)));
    assert_eq!(Some(Ok(3)), state.result());
    assert_eq!([7, 8, 9], buf);
    assert_eq!(Some(Ok(0)), BufferRead::new(0).result());
}

#[test]
fn flush_polls_until_idle() {
    assert_eq!(None, flush_step(Flags { bits: 0x08 }));
    assert_eq!(Some(Ok(())), flush_step(Flags { bits: 0xf7 }));
}
