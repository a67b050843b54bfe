//! Errors raised when attaching an exception handler.
use vstd::prelude::*;
use vstd::string::*;

verus! {

/// The ways attaching an exception handler can fail.
#[derive(Debug)]
pub enum Error {
    /// Memory for the alternate signal stack could not be mapped.
    OutOfMemory,
    /// Invalid arguments were provided.
    InvalidArgs,
    /// A formatting error.
    Format(std::fmt::Error),
}

impl Error {
    /// The human readable description of the error; for a formatting error
    /// it is the description of its cause.
    pub fn message(&self) -> (m: String)
        ensures
            self matches Error::OutOfMemory ==> m@ == "unable to allocate memory"@,
            self matches Error::InvalidArgs ==> m@ == "invalid arguments provided"@,
            self matches Error::Format(e) ==> to_string_from_display_ensures::<std::fmt::Error>(
                &e,
                m,
            ),
    {
        match self {
            Error::OutOfMemory => String::from_str("unable to allocate memory"),
            Error::InvalidArgs => String::from_str("invalid arguments provided"),
            Error::Format(e) => e.to_string(),
        }
    }
}

impl From<std::fmt::Error> for Error {
    fn from(e: std::fmt::Error) -> (r: Self) {
        Error::Format(e)
    }
}

impl vstd::std_specs::convert::FromSpecImpl<std::fmt::Error> for Error {
    open spec fn obeys_from_spec() -> bool {
        true
    }

    open spec fn from_spec(e: std::fmt::Error) -> Self {
        Error::Format(e)
    }
}

impl From<crate::signal_state::AltStackError> for Error {
    /// A failed alternate stack is [`Error::OutOfMemory`].
    fn from(e: crate::signal_state::AltStackError) -> (r: Self) {
        Error::OutOfMemory
    }
}

impl vstd::std_specs::convert::FromSpecImpl<crate::signal_state::AltStackError> for Error {
    open spec fn obeys_from_spec() -> bool {
        true
    }

    open spec fn from_spec(e: crate::signal_state::AltStackError) -> Self {
        Error::OutOfMemory
    }
}

} // verus!
