//! Crash handling primitives: the portable crash context, the signal and
//! exception handler bookkeeping, and the helpers of the minidump test harness.
pub mod context;
pub mod stack;
pub mod crash_handler;
pub mod signal_state;
pub mod exception_handler;
pub mod harness;
