//! Failures of the protocol client.
use vstd::prelude::*;
use crate::decimal::{decimal, format_decimal};

verus! {

/// A failure of the serial channel itself.
#[derive(Debug, Clone)]
pub enum TransportError {
    /// The channel could not be opened.
    Open { reason: String },
    /// Writing the request failed.
    Write { reason: String },
    /// Reading the reply failed.
    Read { reason: String },
    /// No reply arrived within the read timeout.
    TimedOut,
    /// The read returned no bytes.
    NoData,
}

/// A failure of one instruction.
#[derive(Debug, Clone)]
pub enum InstructionError {
    /// A numeric value outside `[min, max]`; nothing was sent.
    OutOfRange { value: i64, min: i32, max: i32 },
    /// A text value outside the allowed set; nothing was sent.
    NotAllowed { value: String },
    /// The device answered with text that is not an integer.
    InvalidNumber { text: String },
    /// The device answered with neither `ON` nor `OFF`.
    InvalidState { state: String },
    /// The exchange with the device failed.
    Transport(TransportError),
}

impl TransportError {
    pub open spec fn message_text(&self) -> Seq<char> {
        match self {
            TransportError::Open { reason } => "Cannot open the serial port: "@ + reason@,
            TransportError::Write { reason } => "Write failed: "@ + reason@,
            TransportError::Read { reason } => "Read failed: "@ + reason@,
            TransportError::TimedOut => "No reply within the timeout"@,
            TransportError::NoData => "Empty reply"@,
        }
    }

    /// The error as text for the user.
    pub fn message(&self) -> (r: String)
        ensures
            r@ == self.message_text(),
    {
        match self {
            TransportError::Open { reason } => String::from_str("Cannot open the serial port: ").concat(reason.as_str()),
            TransportError::Write { reason } => String::from_str("Write failed: ").concat(reason.as_str()),
            TransportError::Read { reason } => String::from_str("Read failed: ").concat(reason.as_str()),
            TransportError::TimedOut => String::from_str("No reply within the timeout"),
            TransportError::NoData => String::from_str("Empty reply"),
        }
    }
}

impl InstructionError {
    /// The error as text for the user.
    pub fn message(&self) -> (r: String)
        ensures
            r@ == match self {
                InstructionError::OutOfRange { value, min, max } => "Value "@ + decimal(
                    *value as int,
                ) + " out of range ["@ + decimal(*min as int) + ", "@ + decimal(*max as int)
                    + "]"@,
                InstructionError::NotAllowed { value } => "Value "@ + value@ + " not allowed"@,
                InstructionError::InvalidNumber { text } => "Invalid number: "@ + text@,
                InstructionError::InvalidState { state } => "Invalid boolean state: "@ + state@,
                InstructionError::Transport(e) => e.message_text(),
            },
    {
        match self {
            InstructionError::OutOfRange { value, min, max } => {
                let mut out = String::from_str("Value ");
                out.append(format_decimal(*value).as_str());
                out.append(" out of range [");
                out.append(format_decimal(*min as i64).as_str());
                out.append(", ");
                out.append(format_decimal(*max as i64).as_str());
                out.append("]");
                out
            },
            InstructionError::NotAllowed { value } => String::from_str("Value ").concat(
                value.as_str(),
            ).concat(" not allowed"),
            InstructionError::InvalidNumber { text } => String::from_str("Invalid number: ").concat(
                text.as_str(),
            ),
            InstructionError::InvalidState { state } => String::from_str(
                "Invalid boolean state: ",
            ).concat(state.as_str()),
            InstructionError::Transport(e) => e.message(),
        }
    }
}

} // verus!
