//! The jump buffer of `sigsetjmp`/`siglongjmp`.
use vstd::prelude::*;

verus! {

/// A jump buffer, which is essentially the register state of a point in
/// execution at the time of a `sigsetjmp` call that can be returned to by
/// passing this buffer to `siglongjmp` (the x86_64 layout).
pub struct JmpBuf {
    /// CPU context
    jmp_buf: [u64; 8],
    /// Whether the signal mask was saved
    fl: u32,
    /// Saved signal mask
    ss: [u32; 32],
}

} // verus!
