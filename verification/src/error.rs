use vstd::prelude::*;

verus! {

/// PL011 UART error type.
#[derive(Debug, Clone, Copy, PartialEq, Eq, Structural)]
pub enum Error {
    InvalidParameter,
    Overrun,
    Break,
    Parity,
    Framing,
}

/// The categories of serial errors that a generic serial interface
/// distinguishes; each driver error falls into exactly one of them.
#[derive(Debug, Clone, Copy, PartialEq, Eq, Structural)]
pub enum SerialErrorKind {
    /// The receive buffer was overrun.
    Overrun,
    /// Received data does not conform to the configured frame format.
    FrameFormat,
    /// Parity check failed.
    Parity,
    /// The line is too noisy to read valid data.
    Noise,
    /// Any other error.
    Other,
}

/// The categories of errors that a generic blocking I/O interface
/// distinguishes.
#[derive(Debug, Clone, Copy, PartialEq, Eq, Structural)]
pub enum IoErrorKind {
    Other,
    NotFound,
    PermissionDenied,
    ConnectionRefused,
    ConnectionReset,
    ConnectionAborted,
    NotConnected,
    AddrInUse,
    AddrNotAvailable,
    BrokenPipe,
    AlreadyExists,
    InvalidInput,
    InvalidData,
    TimedOut,
    Interrupted,
    Unsupported,
    OutOfMemory,
    WriteZero,
}

/// Outcome of a non-blocking operation that did not succeed: either it
/// would have to wait for the hardware, or it failed with an error.
#[derive(Debug, Clone, Copy, PartialEq, Eq, Structural)]
pub enum NbError {
    /// A different kind of error.
    Other(Error),
    /// The operation cannot complete without blocking.
    WouldBlock,
}

/// The serial category of each driver error.
pub open spec fn serial_kind_of(e: Error) -> SerialErrorKind {
    match e {
        Error::InvalidParameter => SerialErrorKind::Other,
        Error::Overrun => SerialErrorKind::Overrun,
        Error::Break => SerialErrorKind::Other,
        Error::Parity => SerialErrorKind::Parity,
        Error::Framing => SerialErrorKind::FrameFormat,
    }
}

impl Error {
    /// The serial error category of this error.
    pub fn kind(&self) -> (k: SerialErrorKind)
        ensures
            k == serial_kind_of(*self),
    {
        match self {
            Error::InvalidParameter => SerialErrorKind::Other,
            Error::Overrun => SerialErrorKind::Overrun,
            Error::Break => SerialErrorKind::Other,
            Error::Parity => SerialErrorKind::Parity,
            Error::Framing => SerialErrorKind::FrameFormat,
        }
    }

    /// The blocking I/O error category of this error: none of the driver's
    /// errors is more specific than `Other`.
    pub fn io_kind(&self) -> (k: IoErrorKind)
        ensures
            k == IoErrorKind::Other,
    {
        IoErrorKind::Other
    }
}

} // verus!
