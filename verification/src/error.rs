//! Command-surface error type: every control-plane operation that fails
//! reports a message together with a stable machine-readable code.

use vstd::prelude::*;

verus! {

/// Error returned by the command surface, tagged with a stable code.
pub enum AppError {
    Dsp { error: String },
    Db { error: String },
    Fs { error: String },
}

impl AppError {
    /// Wraps a message as a DSP-side failure.
    pub fn dsp(error: String) -> (r: AppError)
        ensures
            r matches AppError::Dsp { error: e } && e@ == error@,
    {
        AppError::Dsp { error }
    }

    /// Wraps a message as a database-side failure.
    pub fn db(error: String) -> (r: AppError)
        ensures
            r matches AppError::Db { error: e } && e@ == error@,
    {
        AppError::Db { error }
    }

    /// Wraps a message as a filesystem-side failure.
    pub fn fs(error: String) -> (r: AppError)
        ensures
            r matches AppError::Fs { error: e } && e@ == error@,
    {
        AppError::Fs { error }
    }

    /// The stable code that the host shell serializes next to the message.
    pub fn code(&self) -> (r: &'static str)
        ensures
            self matches AppError::Dsp { .. } ==> r@ == "DSP_ERROR"@,
            self matches AppError::Db { .. } ==> r@ == "DB_ERROR"@,
            self matches AppError::Fs { .. } ==> r@ == "FS_ERROR"@,
    {
        match self {
            AppError::Dsp { .. } => "DSP_ERROR",
            AppError::Db { .. } => "DB_ERROR",
            AppError::Fs { .. } => "FS_ERROR",
        }
    }

    /// The human-readable message carried by the error.
    pub fn message(&self) -> (r: &String)
        ensures
            self matches AppError::Dsp { error } ==> r@ == error@,
            self matches AppError::Db { error } ==> r@ == error@,
            self matches AppError::Fs { error } ==> r@ == error@,
    {
        match self {
            AppError::Dsp { error } => error,
            AppError::Db { error } => error,
            AppError::Fs { error } => error,
        }
    }
}

/// Message used when a shared-state lock comes back poisoned; the cause is
/// dropped because a poisoned lock carries no further information.
pub fn lock_err<T>(_cause: T) -> (r: String)
    ensures
        r@ == "Audio state lock poisoned"@,
{
    "Audio state lock poisoned".to_owned()
}

} // verus!
