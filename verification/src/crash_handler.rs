//! The crash handler: the bookkeeping and the decisions taken when a signal
//! or exception is caught, and the user's answer to it.
use vstd::prelude::*;

pub mod error;
pub mod jmp;
pub mod linux;
pub mod mac;
pub mod windows;

pub use error::Error;

verus! {

/// The result of the user code executed during a crash event.
#[derive(Copy, Clone, Debug, PartialEq, Eq, Structural)]
pub enum CrashEventResult {
    /// The event was handled in some way
    Handled(bool),
    /// The handler wishes to jump somewhere else, presumably to return
    /// execution and skip the code that caused the exception
    Jump {
        /// The address of the jump buffer to jump back to, filled by a
        /// `sigsetjmp`/`setjmp` call
        jmp_buf: usize,
        /// The value that will be returned from the `sigsetjmp`/`setjmp` call
        /// that is jumped to. Note that if the value is 0 it will be
        /// corrected to 1
        value: i32,
    },
}

impl From<bool> for CrashEventResult {
    fn from(b: bool) -> (r: Self) {
        CrashEventResult::Handled(b)
    }
}

impl vstd::std_specs::convert::FromSpecImpl<bool> for CrashEventResult {
    open spec fn obeys_from_spec() -> bool {
        true
    }

    open spec fn from_spec(b: bool) -> Self {
        CrashEventResult::Handled(b)
    }
}

} // verus!
