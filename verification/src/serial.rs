use vstd::prelude::*;
use crate::driver::{read_word, read_word_spec, write_word, write_word_spec, Flags};
use crate::error::{Error, NbError};
use crate::registers::RegisterWrite;

verus! {

/// Non-blocking write of one byte, given the value read from UARTFR: the
/// write to make to the Data Register, or `WouldBlock` while the transmit
/// FIFO is full.
pub fn serial_write(flags: Flags, word: u8) -> (r: Result<RegisterWrite, NbError>)
    ensures
        r == if flags.tx_fifo_full() {
            Err::<RegisterWrite, NbError>(NbError::WouldBlock)
        } else {
            Ok::<RegisterWrite, NbError>(write_word_spec(word))
        },
{
    if flags.is_tx_fifo_full() {
        return Err(NbError::WouldBlock);
    }
    Ok(write_word(word))
}

/// Non-blocking flush, given the value read from UARTFR: done once the UART
/// is no longer busy, `WouldBlock` before.
pub fn serial_flush(flags: Flags) -> (r: Result<(), NbError>)
    ensures
        r == if flags.busy() {
            Err::<(), NbError>(NbError::WouldBlock)
        } else {
            Ok::<(), NbError>(())
        },
{
    if flags.is_busy() {
        Err(NbError::WouldBlock)
    } else {
        Ok(())
    }
}

/// First half of a non-blocking read of one byte, given the value read from
/// UARTFR: whether the Data Register may be read, or `WouldBlock` while the
/// receive FIFO is empty.
pub fn serial_read_ready(flags: Flags) -> (r: Result<(), NbError>)
    ensures
        r == if flags.rx_fifo_empty() {
            Err::<(), NbError>(NbError::WouldBlock)
        } else {
            Ok::<(), NbError>(())
        },
{
    if flags.is_rx_fifo_empty() {
        return Err(NbError::WouldBlock);
    }
    Ok(())
}

/// What a non-blocking read returns for the value read from UARTDR.
pub open spec fn serial_read_data_spec(dr: u32) -> Result<u8, NbError> {
    match read_word_spec(dr) {
        Ok(word) => Ok(word),
        Err(e) => Err(NbError::Other(e)),
    }
}

/// Second half of a non-blocking read of one byte: the byte read from the
/// Data Register, or the receive error that it reports.
pub fn serial_read_data(dr: u32) -> (r: Result<u8, NbError>)
    ensures
        r == serial_read_data_spec(dr),
{
    match read_word(dr) {
        Ok(word) => Ok(word),
        Err(err) => Err(NbError::Other(err)),
    }
}

/// Progress of a blocking write of a buffer, made of one non-blocking write
/// per byte. A byte offered while the transmit FIFO is full is offered again
/// at the next step, so the bytes reach the Data Register in order, each
/// exactly once.
pub struct BufferWrite {
    len: usize,
    next: usize,
}

impl BufferWrite {
    /// Length of the buffer being written.
    pub closed spec fn len(&self) -> nat {
        self.len as nat
    }

    /// Index of the next byte to offer: the bytes before it were written.
    pub closed spec fn next(&self) -> nat {
        self.next as nat
    }

    /// Whether the state is consistent.
    pub closed spec fn wf(&self) -> bool {
        self.next <= self.len
    }

    /// Starts writing a buffer of `len` bytes.
    pub fn new(len: usize) -> (s: Self)
        ensures
            s.wf(),
            s.len() == len,
            s.next() == 0,
    {
        BufferWrite { len, next: 0 }
    }

    /// The result of the write once every byte has been written to the Data
    /// Register: the length of the buffer.
    pub fn result(&self) -> (r: Option<Result<usize, Error>>)
        requires
            self.wf(),
        ensures
            r == if self.next() == self.len() {
                Some(Ok::<usize, Error>(self.len() as usize))
            } else {
                None
            },
    {
        if self.next == self.len {
            Some(Ok(self.len))
        } else {
            None
        }
    }

    /// Offers the next byte of `buf`, given the value read from UARTFR: the
    /// write to make to the Data Register, after which the following byte is
    /// next; or none when the transmit FIFO is full, and the same byte stays
    /// next.
    pub fn step(&mut self, buf: &[u8], flags: Flags) -> (w: Option<RegisterWrite>)
        requires
            old(self).wf(),
            old(self).next() < old(self).len(),
            buf@.len() == old(self).len(),
        ensures
            final(self).wf(),
            final(self).len() == old(self).len(),
            final(self).next() == old(self).next() + if flags.tx_fifo_full() {
                0int
            } else {
                1int
            },
            w == if flags.tx_fifo_full() {
                None
            } else {
                Some(write_word_spec(buf@[old(self).next() as int]))
            },
    {
        let word = buf[self.next];
        match serial_write(flags, word) {
            Ok(write) => {
                self.next = self.next + 1;
                Some(write)
            },
            Err(_) => None,
        }
    }
}

/// One round of a blocking flush, given the value read from UARTFR: done
/// once the UART is no longer busy, none while it must be polled again.
pub fn flush_step(flags: Flags) -> (r: Option<Result<(), Error>>)
    ensures
        r == if flags.busy() {
            None
        } else {
            Some(Ok::<(), Error>(()))
        },
{
    match serial_flush(flags) {
        Ok(()) => Some(Ok(())),
        Err(NbError::Other(err)) => Some(Err(err)),
        Err(NbError::WouldBlock) => None,
    }
}

/// Progress of a blocking read that fills a buffer, made of non-blocking
/// reads of one byte each.
pub struct BufferRead {
    len: usize,
    next: usize,
}

impl BufferRead {
    /// Length of the buffer being filled.
    pub closed spec fn len(&self) -> nat {
        self.len as nat
    }

    /// Index of the next byte to fill.
    pub closed spec fn next(&self) -> nat {
        self.next as nat
    }

    /// Whether the state is consistent.
    pub closed spec fn wf(&self) -> bool {
        self.next <= self.len
    }

    /// Starts filling a buffer of `len` bytes.
    pub fn new(len: usize) -> (s: Self)
        ensures
            s.wf(),
            s.len() == len,
            s.next() == 0,
    {
        BufferRead { len, next: 0 }
    }

    /// The result of the read once the buffer is full.
    pub fn result(&self) -> (r: Option<Result<usize, Error>>)
        requires
            self.wf(),
        ensures
            r == if self.next() == self.len() {
                Some(Ok::<usize, Error>(self.len() as usize))
            } else {
                None
            },
    {
        if self.next == self.len {
            Some(Ok(self.len))
        } else {
            None
        }
    }

    /// Takes the outcome of one non-blocking read: a byte is stored at the
    /// next index, `WouldBlock` changes nothing, and an error ends the read
    /// with that error.
    pub fn step(&mut self, buf: &mut [u8], outcome: Result<u8, NbError>) -> (r: Option<Error>)
        requires
            old(self).wf(),
            old(self).next() < old(self).len(),
            old(buf)@.len() == old(self).len(),
        ensures
            final(self).wf(),
            final(self).len() == old(self).len(),
            match outcome {
                Ok(byte) => {
                    &&& final(buf)@ == old(buf)@.update(old(self).next() as int, byte)
                    &&& final(self).next() == old(self).next() + 1
                    &&& r == None::<Error>
                },
                Err(NbError::WouldBlock) => {
                    &&& final(buf)@ == old(buf)@
                    &&& final(self).next() == old(self).next()
                    &&& r == None::<Error>
                },
                Err(NbError::Other(e)) => {
                    &&& final(buf)@ == old(buf)@
                    &&& final(self).next() == old(self).next()
                    &&& r == Some(e)
                },
            },
    {
        match outcome {
            Ok(byte) => {
                buf[self.next] = byte;
                self.next = self.next + 1;
                None
            },
            Err(NbError::Other(err)) => Some(err),
            Err(NbError::WouldBlock) => None,
        }
    }
}

} // verus!
