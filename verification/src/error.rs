//! Why a capture failed.

use vstd::prelude::*;

verus! {

/// Message of a capture that found no primary monitor ("primary monitor not
/// found").
pub const NO_PRIMARY_MONITOR: &'static str = "未找到主显示器";

/// Message of a frame whose buffer does not match its dimensions.
pub const BUFFER_MISMATCH: &'static str = "pixel buffer does not match the frame's dimensions";

/// Message of an encoding that declares another image than the frame.
pub const HEADER_MISMATCH: &'static str =
    "encoded image does not declare the frame's dimensions as RGBA8";

/// Why a frame could not be turned into PNG bytes.
#[derive(Debug, PartialEq, Eq)]
pub enum EncodingFailure {
    /// The buffer is not one that holds the frame: it does not hold exactly
    /// four bytes for each pixel of the frame's dimensions, or a row of the
    /// frame has more bytes than the machine can count.
    BufferMismatch,
    /// The encoder reported an error; this is its message.
    Rejected(String),
    /// The encoder's output does not open as a PNG that declares the
    /// frame's dimensions with four channels of eight bits.
    HeaderMismatch,
}

/// Why a capture failed. Every failure ends the capture: nothing is tried
/// again and no partial result is handed out.
#[derive(Debug, PartialEq, Eq)]
pub enum CaptureError {
    /// The platform could not list the monitors; this is its message.
    Enumeration(String),
    /// No monitor reported itself as the primary one.
    NoPrimaryMonitor,
    /// The platform could not grab the region; this is its message.
    Capture(String),
    /// The grabbed frame could not be encoded.
    Encoding(EncodingFailure),
    /// The encoded bytes could not be written to the path that was asked
    /// for; this is the platform's message.
    Persistence(String),
}

impl EncodingFailure {
    /// The text that describes this failure.
    pub open spec fn text(self) -> Seq<char> {
        match self {
            EncodingFailure::BufferMismatch => BUFFER_MISMATCH@,
            EncodingFailure::Rejected(message) => message@,
            EncodingFailure::HeaderMismatch => HEADER_MISMATCH@,
        }
    }

    /// Two failures are of the same kind. The message of an error that the
    /// encoder reports is not compared.
    pub open spec fn alike(self, other: EncodingFailure) -> bool {
        match (self, other) {
            (EncodingFailure::BufferMismatch, EncodingFailure::BufferMismatch) => true,
            (EncodingFailure::Rejected(_), EncodingFailure::Rejected(_)) => true,
            (EncodingFailure::HeaderMismatch, EncodingFailure::HeaderMismatch) => true,
            _ => false,
        }
    }

    /// Describes this failure in words.
    pub fn message(&self) -> (r: String)
        ensures
            r@ == self.text(),
    {
        match self {
            EncodingFailure::BufferMismatch => BUFFER_MISMATCH.to_owned(),
            EncodingFailure::Rejected(message) => message.clone(),
            EncodingFailure::HeaderMismatch => HEADER_MISMATCH.to_owned(),
        }
    }
}

impl CaptureError {
    /// The text that a caller is shown for this error: the platform's or the
    /// encoder's own message where there is one.
    pub open spec fn text(self) -> Seq<char> {
        match self {
            CaptureError::Enumeration(message) => message@,
            CaptureError::NoPrimaryMonitor => NO_PRIMARY_MONITOR@,
            CaptureError::Capture(message) => message@,
            CaptureError::Encoding(failure) => failure.text(),
            CaptureError::Persistence(message) => message@,
        }
    }

    /// Two errors say the same: they are of the same kind and carry the
    /// same platform message, if any.
    pub open spec fn alike(self, other: CaptureError) -> bool {
        match (self, other) {
            (CaptureError::Enumeration(a), CaptureError::Enumeration(b)) => a@ == b@,
            (CaptureError::NoPrimaryMonitor, CaptureError::NoPrimaryMonitor) => true,
            (CaptureError::Capture(a), CaptureError::Capture(b)) => a@ == b@,
            (CaptureError::Encoding(a), CaptureError::Encoding(b)) => a.alike(b),
            (CaptureError::Persistence(a), CaptureError::Persistence(b)) => a@ == b@,
            _ => false,
        }
    }

    /// Describes this error in words.
    pub fn message(&self) -> (r: String)
        ensures
            r@ == self.text(),
    {
        match self {
            CaptureError::Enumeration(message) => message.clone(),
            CaptureError::NoPrimaryMonitor => NO_PRIMARY_MONITOR.to_owned(),
            CaptureError::Capture(message) => message.clone(),
            CaptureError::Encoding(failure) => failure.message(),
            CaptureError::Persistence(message) => message.clone(),
        }
    }
}

} // verus!
