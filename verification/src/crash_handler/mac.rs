//! The Mach message records exchanged with the exception port on macOS.
#![allow(non_camel_case_types)]
use vstd::prelude::*;

verus! {

/// Network Data Representation Record (`ndr.h`).
#[derive(Copy, Clone, Debug, PartialEq, Eq, Structural)]
pub struct NDR_record_t {
    pub mig_vers: u8,
    pub if_vers: u8,
    pub reserved1: u8,
    pub mig_encoding: u8,
    pub int_rep: u8,
    pub char_rep: u8,
    pub float_rep: u8,
    pub reserved2: u8,
}

/// Number of top level exception types (`<arch>/exception.h`).
pub const EXC_TYPES_COUNT: usize = 14;

/// For `EXC_SOFTWARE` exceptions, this indicates the exception was due to a
/// Unix signal; the actual signal is stored in the subcode of the exception.
pub const EXC_SOFT_SIGNAL: u32 = 0x10003;

} // verus!
