//! The exception handler: an earlier flavor of the crash handler whose user
//! callback answers with a plain `bool`, and which on Windows keeps a stack
//! of handlers rather than a single one.
use vstd::prelude::*;

pub mod error;
pub mod linux;
pub mod windows;

pub use error::Error;

verus! {

} // verus!
