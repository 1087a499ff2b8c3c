use crate::text::decimal;
use crate::text::decimal_spec;
use vstd::prelude::*;

verus! {

/// Typed failure of a provider operation.
#[derive(Debug)]
pub enum HephaestusError {
    /// A configuration value cannot be represented or is not supported.
    InvalidConfiguration { message: String },
    /// A dispatch was rejected before or while it was encoded.
    DispatchFailed { message: String },
    /// A host or device allocation failed.
    AllocationFailed { message: String },
    /// A host length and a device length disagree.
    LengthMismatch { host_len: usize, device_len: usize },
}

/// The rendered form of an error.
pub open spec fn error_text(e: HephaestusError) -> Seq<char> {
    match e {
        HephaestusError::InvalidConfiguration { message } => "invalid configuration: "@
            + message@,
        HephaestusError::DispatchFailed { message } => "kernel dispatch failed: "@ + message@,
        HephaestusError::AllocationFailed { message } => "allocation failed: "@ + message@,
        HephaestusError::LengthMismatch { host_len, device_len } => "length mismatch: host "@
            + decimal_spec(host_len as nat) + ", device "@ + decimal_spec(device_len as nat),
    }
}

/// The message an error carries; a length mismatch carries lengths instead.
pub open spec fn message_of(e: HephaestusError) -> Seq<char> {
    match e {
        HephaestusError::InvalidConfiguration { message } => message@,
        HephaestusError::DispatchFailed { message } => message@,
        HephaestusError::AllocationFailed { message } => message@,
        HephaestusError::LengthMismatch { .. } => seq![],
    }
}

impl HephaestusError {
    /// Render the error as its user-facing message.
    pub fn describe(&self) -> (s: String)
        ensures
            s@ == error_text(*self),
    {
        match self {
            HephaestusError::InvalidConfiguration { message } => {
                let mut s = String::from_str("invalid configuration: ");
                s.append(message.as_str());
                s
            },
            HephaestusError::DispatchFailed { message } => {
                let mut s = String::from_str("kernel dispatch failed: ");
                s.append(message.as_str());
                s
            },
            HephaestusError::AllocationFailed { message } => {
                let mut s = String::from_str("allocation failed: ");
                s.append(message.as_str());
                s
            },
            HephaestusError::LengthMismatch { host_len, device_len } => {
                let mut s = String::from_str("length mismatch: host ");
                let host = decimal(*host_len as u64);
                s.append(host.as_str());
                s.append(", device ");
                let device = decimal(*device_len as u64);
                s.append(device.as_str());
                s
            },
        }
    }
}

} // verus!
