//! The crash context on Windows, the exception codes it carries, and the
//! layout of the 32-bit x86 thread context.
#![allow(non_snake_case, non_camel_case_types)]
use vstd::prelude::*;

verus! {

/// `STATUS_NONCONTINUABLE_EXCEPTION` (`0xC0000025`).
pub const STATUS_NONCONTINUABLE_EXCEPTION: i32 = -1073741787i32;

/// `STATUS_INVALID_PARAMETER` (`0xC000000D`).
pub const STATUS_INVALID_PARAMETER: i32 = -1073741811i32;

/// `EXCEPTION_INT_DIVIDE_BY_ZERO` (`0xC0000094`).
pub const EXCEPTION_INT_DIVIDE_BY_ZERO: i32 = -1073741676i32;

/// `EXCEPTION_ILLEGAL_INSTRUCTION` (`0xC000001D`).
pub const EXCEPTION_ILLEGAL_INSTRUCTION: i32 = -1073741795i32;

/// `EXCEPTION_ACCESS_VIOLATION` (`0xC0000005`).
pub const EXCEPTION_ACCESS_VIOLATION: i32 = -1073741819i32;

/// `EXCEPTION_STACK_OVERFLOW` (`0xC00000FD`).
pub const EXCEPTION_STACK_OVERFLOW: i32 = -1073741571i32;

/// `EXCEPTION_BREAKPOINT` (`0x80000003`).
pub const EXCEPTION_BREAKPOINT: i32 = -2147483645i32;

/// `EXCEPTION_SINGLE_STEP` (`0x80000004`).
pub const EXCEPTION_SINGLE_STEP: i32 = -2147483644i32;

/// `DBG_PRINTEXCEPTION_C` (`0x40010006`).
pub const DBG_PRINTEXCEPTION_C: i32 = 1073807366i32;

/// `DBG_PRINTEXCEPTION_WIDE_C` (`0x4001000A`).
pub const DBG_PRINTEXCEPTION_WIDE_C: i32 = 1073807370i32;

/// Full crash context on Windows.
#[derive(Copy, Clone, Debug, PartialEq, Eq, Structural)]
pub struct CrashContext {
    /// The address of the `EXCEPTION_POINTERS` describing the exception, in
    /// the memory of the crashed process.
    pub exception_pointers: usize,
    /// The top level exception code from the exception pointers, provided so
    /// that external processes don't need to read the crashed process's
    /// memory to inspect it.
    pub exception_code: i32,
    /// The pid of the process that crashed
    pub process_id: u32,
    /// The thread id on which the exception occurred
    pub thread_id: u32,
}

impl CrashContext {
    /// The crash context of an exception caught by the exception filter:
    /// the exception pointers it was handed and the code of their record.
    pub fn for_exception(exception_pointers: usize, exception_code: i32, process_id: u32, thread_id: u32) -> (c: Self)
        ensures
            c == (CrashContext { exception_pointers, exception_code, process_id, thread_id }),
    {
        CrashContext { exception_pointers, exception_code, process_id, thread_id }
    }

    /// The crash context made up when the CRT reports an invalid parameter:
    /// the exception pointers of a record built for it, and the code
    /// `STATUS_INVALID_PARAMETER`, which the record carries too.
    pub fn for_invalid_parameter(exception_pointers: usize, process_id: u32, thread_id: u32) -> (c: Self)
        ensures
            c == (CrashContext {
                exception_pointers,
                exception_code: STATUS_INVALID_PARAMETER,
                process_id,
                thread_id,
            }),
    {
        CrashContext { exception_pointers, exception_code: STATUS_INVALID_PARAMETER, process_id, thread_id }
    }

    /// The crash context made up when the CRT reports a pure virtual call:
    /// the exception pointers of a record built for it, and the code
    /// `STATUS_NONCONTINUABLE_EXCEPTION`, which the record carries too.
    pub fn for_purecall(exception_pointers: usize, process_id: u32, thread_id: u32) -> (c: Self)
        ensures
            c == (CrashContext {
                exception_pointers,
                exception_code: STATUS_NONCONTINUABLE_EXCEPTION,
                process_id,
                thread_id,
            }),
    {
        CrashContext {
            exception_pointers,
            exception_code: STATUS_NONCONTINUABLE_EXCEPTION,
            process_id,
            thread_id,
        }
    }
}

/// Size of the x87 register area.
pub const SIZE_OF_80387_REGISTERS: usize = 80;

/// Size of the extended (`fxsave`) register area.
pub const MAXIMUM_SUPPORTED_EXTENSION: usize = 512;

/// The x87 floating point state of a 32-bit x86 thread context.
#[derive(Copy, Clone)]
pub struct FLOATING_SAVE_AREA {
    ControlWord: u32,
    StatusWord: u32,
    TagWord: u32,
    ErrorOffset: u32,
    ErrorSelector: u32,
    DataOffset: u32,
    DataSelector: u32,
    RegisterArea: [u8; 80],
    Spare0: u32,
}

/// A 32-bit x86 thread context, as captured for a crash.
#[derive(Copy, Clone)]
pub struct CONTEXT {
    pub ContextFlags: u32,
    pub Dr0: u32,
    pub Dr1: u32,
    pub Dr2: u32,
    pub Dr3: u32,
    pub Dr6: u32,
    pub Dr7: u32,
    pub FloatSave: FLOATING_SAVE_AREA,
    pub SegGs: u32,
    pub SegFs: u32,
    pub SegEs: u32,
    pub SegDs: u32,
    pub Edi: u32,
    pub Esi: u32,
    pub Ebx: u32,
    pub Edx: u32,
    pub Ecx: u32,
    pub Eax: u32,
    pub Ebp: u32,
    pub Eip: u32,
    pub SegCs: u32,
    pub EFlags: u32,
    pub Esp: u32,
    pub SegSs: u32,
    pub ExtendedRegisters: [u8; 512],
}

} // verus!
