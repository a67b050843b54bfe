//! Linux: exception handlers are kept on the same kind of stack as crash
//! handlers; the signal handlers and the alternate signal stack are installed
//! with the first one and restored when the last one is detached.
pub use crate::crash_handler::linux::{ExceptionHandler, Signal};
