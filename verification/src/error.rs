//! What can go wrong at the boundary between host and engine.

use vstd::prelude::*;
use crate::value::ValueType;

verus! {

/// A failure of a context operation.
#[derive(Debug, Clone, PartialEq, Eq)]
pub enum Error {
    /// A host string holds a nul byte at `position`, so it cannot be
    /// handed to the engine as a nul-terminated string.
    StringConversion { position: usize },
    /// The engine refused or failed the operation.
    BoltError { msg: String },
}

impl Error {
    /// The error for something that the engine refused or failed, as
    /// `msg` says.
    pub fn bolt(msg: &str) -> (err: Self)
        ensures
            err matches Error::BoltError { msg: text } && text@ == msg@,
    {
        Self::BoltError { msg: msg.to_owned() }
    }

    /// The text that describes this error.
    pub fn message(&self) -> (text: String)
        ensures
            text@ == self.message_text(),
    {
        match self {
            Error::StringConversion { .. } => {
                "Could not convert argument to CString - make sure not to pass strings with `nul` characters.".to_owned()
            },
            Error::BoltError { msg } => msg.clone(),
        }
    }

    /// The characters of `message`.
    pub open spec fn message_text(&self) -> Seq<char> {
        match self {
            Error::StringConversion { .. } => {
                "Could not convert argument to CString - make sure not to pass strings with `nul` characters."@
            },
            Error::BoltError { msg } => msg@,
        }
    }
}

/// A value could not be taken as the kind that was asked for.
#[derive(Debug, Clone, Copy, PartialEq, Eq, Structural)]
pub enum ArgError {
    /// The value is of the kind `actual`, not of the kind `expected`.
    TypeGuard { expected: ValueType, actual: ValueType },
    /// An enum option was asked for and the value is of the kind `actual`.
    TypeGuardEnum { actual: ValueType },
    /// Argument `idx` was asked for and the call has `len` arguments.
    IndexOutOfBounds { idx: u8, len: u8 },
}

/// A module could not be registered or found. Each variant carries the
/// name that was given.
#[derive(Debug, Clone, PartialEq, Eq)]
pub enum ModuleError {
    InvalidName(String),
    AlreadyRegistered(String),
    NotFound(String),
}

} // verus!
