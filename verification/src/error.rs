//! What can stop an operation of the store.

use vstd::prelude::*;

verus! {

/// The reasons for which an operation is given up.
#[derive(Clone, Copy, Debug, PartialEq, Eq, Structural)]
pub enum StoreError {
    /// No configuration file exists: the store was never initialised.
    ConfigMissing,
    /// The configuration file is no TOML document, or lacks one of the two
    /// text entries that a configuration consists of.
    ConfigCorrupt,
    /// The configuration could not be written down as a TOML document: it
    /// holds more equal quote characters in a row than the writer can
    /// count, or the writer refused it.
    ConfigUnwritable,
    /// The entry that was asked for has no file in the store.
    SecretNotFound,
    /// The secret and its confirmation differ.
    ConfirmationMismatch,
    /// The encryption tool ended with a failure.
    ToolFailure,
    /// A directory has to be looked for in the user's home directory, and
    /// the home directory is not known.
    HomeUnknown,
}

/// The words in which an error is reported to the user.
pub open spec fn message_of(error: StoreError) -> Seq<char> {
    match error {
        StoreError::ConfigMissing => "The password store is not initialized!"@,
        StoreError::ConfigCorrupt => "The configuration file cannot be read!"@,
        StoreError::ConfigUnwritable => "The configuration cannot be written!"@,
        StoreError::SecretNotFound => "There is no such password!"@,
        StoreError::ConfirmationMismatch => "The passwords don't match!"@,
        StoreError::ToolFailure => "The encryption tool failed!"@,
        StoreError::HomeUnknown => "The home directory is not known!"@,
    }
}

/// The status with which the program ends on an error.
pub open spec fn exit_code_of(error: StoreError) -> int {
    match error {
        StoreError::ConfirmationMismatch => -1,
        _ => 1,
    }
}

/// Whether an operation stopped, and for the reason `error`.
pub open spec fn fails_with<T>(outcome: Result<T, StoreError>, error: StoreError) -> bool {
    outcome matches Err(reason) && reason == error
}

/// Whether an operation went ahead, with `value` as what came of it.
pub open spec fn succeeds_with<T>(outcome: Result<T, StoreError>, value: T) -> bool {
    outcome matches Ok(result) && result == value
}

/// A text or an error, with the text as its view.
pub open spec fn text_result(outcome: Result<String, StoreError>) -> Result<Seq<char>, StoreError> {
    match outcome {
        Ok(text) => Ok(text@),
        Err(error) => Err(error),
    }
}

impl StoreError {
    /// The words in which this error is reported to the user.
    pub fn message(&self) -> (words: String)
        ensures
            words@ == message_of(*self),
    {
        match self {
            StoreError::ConfigMissing => "The password store is not initialized!".to_owned(),
            StoreError::ConfigCorrupt => "The configuration file cannot be read!".to_owned(),
            StoreError::ConfigUnwritable => "The configuration cannot be written!".to_owned(),
            StoreError::SecretNotFound => "There is no such password!".to_owned(),
            StoreError::ConfirmationMismatch => "The passwords don't match!".to_owned(),
            StoreError::ToolFailure => "The encryption tool failed!".to_owned(),
            StoreError::HomeUnknown => "The home directory is not known!".to_owned(),
        }
    }

    /// The status with which the program ends on this error. It is never
    /// zero, the status of success.
    pub fn exit_code(&self) -> (code: i32)
        ensures
            code == exit_code_of(*self),
            code != 0,
    {
        match self {
            StoreError::ConfirmationMismatch => -1,
            _ => 1,
        }
    }
}

} // verus!
