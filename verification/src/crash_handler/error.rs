//! Errors raised when attaching a crash handler.
use vstd::prelude::*;
use vstd::string::*;

verus! {

/// `std::fmt::Error`, carried as the cause of [`Error::Format`].
#[verifier::external_type_specification]
#[verifier::external_body]
pub struct ExFmtError(std::fmt::Error);

/// `std::io::Error`, carried as the cause of [`Error::Io`].
#[verifier::external_type_specification]
#[verifier::external_body]
pub struct ExIoError(std::io::Error);

/// The ways attaching a crash handler can fail.
#[derive(Debug)]
pub enum Error {
    /// Memory for the alternate signal stack could not be mapped.
    OutOfMemory,
    /// Invalid arguments were provided.
    InvalidArgs,
    /// A formatting error.
    Format(std::fmt::Error),
    /// For simplicity's sake, only one `CrashHandler` can be registered at
    /// any one time.
    HandlerAlreadyInstalled,
    /// An I/O error.
    Io(std::io::Error),
}

/// The fixed message of each variant that carries no cause.
pub open spec fn spec_fixed_message(e: Error) -> Option<Seq<char>> {
    match e {
        Error::OutOfMemory => Some("unable to allocate memory"@),
        Error::InvalidArgs => Some("invalid arguments provided"@),
        Error::HandlerAlreadyInstalled => Some("an exception handler is already installed"@),
        _ => None,
    }
}

impl Error {
    /// The human readable description of the error; for an error that
    /// carries a cause it is the description of the cause.
    pub fn message(&self) -> (m: String)
        ensures
            spec_fixed_message(*self) matches Some(s) ==> m@ == s,
            self matches Error::Format(e) ==> to_string_from_display_ensures::<std::fmt::Error>(
                &e,
                m,
            ),
            self matches Error::Io(e) ==> to_string_from_display_ensures::<std::io::Error>(&e, m),
    {
        match self {
            Error::OutOfMemory => String::from_str("unable to allocate memory"),
            Error::InvalidArgs => String::from_str("invalid arguments provided"),
            Error::Format(e) => e.to_string(),
            Error::HandlerAlreadyInstalled => String::from_str(
                "an exception handler is already installed",
            ),
            Error::Io(e) => e.to_string(),
        }
    }
}

impl From<std::fmt::Error> for Error {
    fn from(e: std::fmt::Error) -> (r: Self) {
        Error::Format(e)
    }
}

impl vstd::std_specs::convert::FromSpecImpl<std::fmt::Error> for Error {
    open spec fn obeys_from_spec() -> bool {
        true
    }

    open spec fn from_spec(e: std::fmt::Error) -> Self {
        Error::Format(e)
    }
}

impl From<std::io::Error> for Error {
    fn from(e: std::io::Error) -> (r: Self) {
        Error::Io(e)
    }
}

impl vstd::std_specs::convert::FromSpecImpl<std::io::Error> for Error {
    open spec fn obeys_from_spec() -> bool {
        true
    }

    open spec fn from_spec(e: std::io::Error) -> Self {
        Error::Io(e)
    }
}

impl From<crate::signal_state::AltStackError> for Error {
    /// A failed alternate stack is [`Error::OutOfMemory`].
    fn from(e: crate::signal_state::AltStackError) -> (r: Self) {
        Error::OutOfMemory
    }
}

impl vstd::std_specs::convert::FromSpecImpl<crate::signal_state::AltStackError> for Error {
    open spec fn obeys_from_spec() -> bool {
        true
    }

    open spec fn from_spec(e: crate::signal_state::AltStackError) -> Self {
        Error::OutOfMemory
    }
}

} // verus!
