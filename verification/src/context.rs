//! Target specific contextual information captured at the time of a crash.
use vstd::prelude::*;

pub mod amd64;
pub mod guard;
pub mod le;
pub mod mac;
pub mod windows;
pub mod x86;

verus! {

} // verus!
