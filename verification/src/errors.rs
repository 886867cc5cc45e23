//! Error taxonomy of the playback engine.
use vstd::prelude::*;

verus! {

/// Every failure the engine reports falls in one of these classes.
/// The payload carries a human-readable description.
#[derive(Debug, Clone)]
pub enum AudioError {
    IoError(String),
    DecodeError(String),
    EncodeError(String),
    OutputError(String),
    InputError(String),
    DSPError(String),
    ResampleError(String),
    BitPerfectError(String),
    InvalidState(String),
    InvalidParameter(String),
    NotFound(String),
    AlreadyExists(String),
    PermissionDenied(String),
    Timeout(String),
    Cancelled,
    Unknown(String),
}

impl AudioError {
    /// The description carried by the error, if any.
    pub fn message(&self) -> (r: String)
        ensures
            match self {
                AudioError::Cancelled => r@ == Seq::<char>::empty(),
                AudioError::IoError(m) => r@ == m@,
                AudioError::DecodeError(m) => r@ == m@,
                AudioError::EncodeError(m) => r@ == m@,
                AudioError::OutputError(m) => r@ == m@,
                AudioError::InputError(m) => r@ == m@,
                AudioError::DSPError(m) => r@ == m@,
                AudioError::ResampleError(m) => r@ == m@,
                AudioError::BitPerfectError(m) => r@ == m@,
                AudioError::InvalidState(m) => r@ == m@,
                AudioError::InvalidParameter(m) => r@ == m@,
                AudioError::NotFound(m) => r@ == m@,
                AudioError::AlreadyExists(m) => r@ == m@,
                AudioError::PermissionDenied(m) => r@ == m@,
                AudioError::Timeout(m) => r@ == m@,
                AudioError::Unknown(m) => r@ == m@,
            },
    {
        match self {
            AudioError::Cancelled => String::new(),
            AudioError::IoError(m) => m.clone(),
            AudioError::DecodeError(m) => m.clone(),
            AudioError::EncodeError(m) => m.clone(),
            AudioError::OutputError(m) => m.clone(),
            AudioError::InputError(m) => m.clone(),
            AudioError::DSPError(m) => m.clone(),
            AudioError::ResampleError(m) => m.clone(),
            AudioError::BitPerfectError(m) => m.clone(),
            AudioError::InvalidState(m) => m.clone(),
            AudioError::InvalidParameter(m) => m.clone(),
            AudioError::NotFound(m) => m.clone(),
            AudioError::AlreadyExists(m) => m.clone(),
            AudioError::PermissionDenied(m) => m.clone(),
            AudioError::Timeout(m) => m.clone(),
            AudioError::Unknown(m) => m.clone(),
        }
    }

    /// True exactly for the invalid-state class, the error a command in the
    /// wrong transport state reports.
    pub fn is_invalid_state(&self) -> (r: bool)
        ensures
            r == self is InvalidState,
    {
        matches!(self, AudioError::InvalidState(_))
    }
}

} // verus!
