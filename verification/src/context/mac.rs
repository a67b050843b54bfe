//! The crash context on macOS.
use vstd::prelude::*;
use super::guard::ExceptionInfo;

verus! {

/// Full macOS crash context.
#[derive(Copy, Clone, Debug, PartialEq, Eq, Structural)]
pub struct CrashContext {
    /// The process which crashed (a `task_t` port name)
    pub task: u32,
    /// The thread in the process that crashed (a `thread_t` port name)
    pub thread: u32,
    /// The thread that handled the exception. This may be useful to ignore.
    pub handler_thread: u32,
    /// Optional exception information
    pub exception: Option<ExceptionInfo>,
}

} // verus!
