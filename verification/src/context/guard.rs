//! `EXC_GUARD` exceptions embed details about the guarded resource in the
//! `code` and `subcode` fields of the exception.
//!
//! code:
//! +-------------------+----------------+--------------+
//! |[63:61] guard type | [60:32] flavor | [31:0] target|
//! +-------------------+----------------+--------------+
//!
//! subcode:
//! +---------------------------------------------------+
//! |[63:0] guard identifier                            |
//! +---------------------------------------------------+
use vstd::prelude::*;

verus! {

/// The Mach exception type number of `EXC_GUARD` (`exception_types.h`).
pub const EXC_GUARD: u32 = 12;

/// The set of possible guard kinds.
#[derive(Copy, Clone, Debug, PartialEq, Eq, Structural)]
pub enum GuardKind {
    /// Null variant
    Null,
    /// A `mach_port_t`
    MachPort,
    /// File descriptor
    Fd,
    /// Userland assertion
    User,
    /// Vnode
    Vnode,
    /// Virtual memory operation
    VirtualMemory,
    /// Rejected system call trap
    RejectedSyscall,
}

impl GuardKind {
    /// The numeric guard type that the kind stands for.
    pub open spec fn spec_number(self) -> u8 {
        match self {
            GuardKind::Null => 0,
            GuardKind::MachPort => 1,
            GuardKind::Fd => 2,
            GuardKind::User => 3,
            GuardKind::Vnode => 4,
            GuardKind::VirtualMemory => 5,
            GuardKind::RejectedSyscall => 6,
        }
    }

    /// The numeric guard type that the kind stands for, as it appears in
    /// bits `[63:61]` of an exception code.
    pub fn number(self) -> (n: u8)
        ensures
            n == self.spec_number(),
    {
        match self {
            GuardKind::Null => 0,
            GuardKind::MachPort => 1,
            GuardKind::Fd => 2,
            GuardKind::User => 3,
            GuardKind::Vnode => 4,
            GuardKind::VirtualMemory => 5,
            GuardKind::RejectedSyscall => 6,
        }
    }
}

/// Bits `[63:61]` of an exception code, as an unsigned number.
pub open spec fn guard_kind_bits(code: i64) -> u64 {
    (code as u64) >> 61u64
}

/// Bits `[60:32]` of an exception code, as an unsigned number.
pub open spec fn guard_flavor_bits(code: i64) -> u64 {
    ((code as u64) >> 32u64) & 0x1fff_ffffu64
}

/// Bits `[31:0]` of an exception code, as an unsigned number.
pub open spec fn guard_target_bits(code: i64) -> u64 {
    (code as u64) & 0xffff_ffffu64
}

/// The exception code that packs a guard type, flavor and target.
pub open spec fn guard_code(kind: u64, flavor: u64, target: u64) -> i64 {
    ((kind << 61u64) | (flavor << 32u64) | target) as i64
}

/// Extracts the guard type, bits `[63:61]` of the code.
pub fn extract_guard_kind(code: i64) -> (kind: u8)
    ensures
        kind == guard_kind_bits(code),
        kind < 8,
{
    assert((((code >> 61u64) & 0x7i64) as u8) as u64 == (code as u64) >> 61u64
        && (code as u64) >> 61u64 < 8) by (bit_vector);
    ((code >> 61u64) & 0x7) as u8
}

/// Extracts the guard flavor, bits `[60:32]` of the code.
pub fn extract_guard_flavor(code: i64) -> (flavor: u32)
    ensures
        flavor == guard_flavor_bits(code),
        flavor < 0x2000_0000,
{
    assert((((code >> 32u64) & 0x1fff_ffffi64) as u32) as u64 == ((code as u64) >> 32u64)
        & 0x1fff_ffffu64 && ((code as u64) >> 32u64) & 0x1fff_ffffu64 < 0x2000_0000)
        by (bit_vector);
    ((code >> 32u64) & 0x1fff_ffff) as u32
}

/// Extracts the guarded target, bits `[31:0]` of the code.
pub fn extract_guard_target(code: i64) -> (target: u32)
    ensures
        target == guard_target_bits(code),
{
    assert((code as u32) as u64 == (code as u64) & 0xffff_ffffu64) by (bit_vector);
    code as u32
}

/// The extracted details of an `EXC_GUARD` exception.
#[derive(Copy, Clone, Debug, PartialEq, Eq, Structural)]
pub struct GuardException {
    /// One of [`GuardKind`]
    pub kind: u8,
    /// The specific guard flavor that was violated, specific to each `kind`
    pub flavor: u32,
    /// The resource that was guarded
    pub target: u32,
    /// Target specific guard information
    pub identifier: u64,
}

/// The guard details that an exception code and subcode hold.
pub open spec fn spec_guard_exception(code: i64, subcode: i64) -> GuardException {
    GuardException {
        kind: guard_kind_bits(code) as u8,
        flavor: guard_flavor_bits(code) as u32,
        target: guard_target_bits(code) as u32,
        identifier: subcode as u64,
    }
}

/// Extracts the guard details from an exception's code and subcode.
pub fn extract_guard_exception(code: i64, subcode: i64) -> (g: GuardException)
    ensures
        g == spec_guard_exception(code, subcode),
{
    GuardException {
        kind: extract_guard_kind(code),
        flavor: extract_guard_flavor(code),
        target: extract_guard_target(code),
        identifier: subcode as u64,
    }
}

/// Information on the Mach exception that caused a crash.
#[derive(Copy, Clone, Debug, PartialEq, Eq, Structural)]
pub struct ExceptionInfo {
    /// The exception kind (an `exception_type_t`)
    pub kind: i32,
    /// The exception code
    pub code: i64,
    /// Optional subcode, typically only present for `EXC_BAD_ACCESS` exceptions
    pub subcode: Option<i64>,
}

impl ExceptionInfo {
    /// Whether this is an `EXC_GUARD` exception.
    pub open spec fn is_guard(self) -> bool {
        self.kind as u32 == EXC_GUARD
    }

    /// The subcode, or zero when there is none.
    pub open spec fn subcode_or_zero(self) -> i64 {
        match self.subcode {
            Some(s) => s,
            None => 0,
        }
    }

    /// If this is an `EXC_GUARD` exception, retrieves the exception metadata
    /// from the code, otherwise returns `None`.
    pub fn guard_exception(&self) -> (g: Option<GuardException>)
        ensures
            g is Some <==> self.is_guard(),
            self.is_guard() ==> g == Some(spec_guard_exception(self.code, self.subcode_or_zero())),
            g is Some <==> self.kind == 12,
    {
        let k = self.kind;
        assert((k as u32 == 12u32) <==> (k == 12i32)) by (bit_vector);
        if self.kind as u32 != EXC_GUARD {
            return None;
        }
        let subcode = match self.subcode {
            Some(s) => s,
            None => 0,
        };
        Some(extract_guard_exception(self.code, subcode))
    }
}

/// Packing a guard type, flavor and target into an exception code and then
/// extracting them gives each of them back unchanged.
pub proof fn lemma_guard_code_roundtrip(kind: u64, flavor: u64, target: u64)
    requires
        kind < 8,
        flavor < 0x2000_0000,
        target < 0x1_0000_0000,
    ensures
        guard_kind_bits(guard_code(kind, flavor, target)) == kind,
        guard_flavor_bits(guard_code(kind, flavor, target)) == flavor,
        guard_target_bits(guard_code(kind, flavor, target)) == target,
{
    assert((((((kind << 61u64) | (flavor << 32u64) | target) as i64) as u64) >> 61u64) == kind
        && (((((kind << 61u64) | (flavor << 32u64) | target) as i64) as u64) >> 32u64)
        & 0x1fff_ffffu64 == flavor
        && ((((kind << 61u64) | (flavor << 32u64) | target) as i64) as u64) & 0xffff_ffffu64
        == target) by (bit_vector)
        requires
            kind < 8,
            flavor < 0x2000_0000,
            target < 0x1_0000_0000,
    ;
}

/// An exception is decoded as a guard exception exactly when its type is
/// `EXC_GUARD` (12): any other type, such as `EXC_SOFTWARE` (5),
/// `EXC_BREAKPOINT` (6) or `EXC_CRASH` (10), gives nothing. The decoded
/// guard type is the code's top three bits, the flavor the 29 bits below
/// them, the target its low 32 bits (the code read as unsigned), and the
/// identifier the subcode (zero when there is none).
pub proof fn lemma_guard_exception_decoding(info: ExceptionInfo)
    ensures
        info.is_guard() <==> info.kind == 12,
        info.is_guard() ==> ({
            let g = spec_guard_exception(info.code, info.subcode_or_zero());
            let u = info.code as u64;
            &&& g.kind as int == u as int / 0x2000_0000_0000_0000
            &&& g.flavor as int == (u as int / 0x1_0000_0000) % 0x2000_0000
            &&& g.target as int == u as int % 0x1_0000_0000
            &&& g.identifier == match info.subcode {
                Some(s) => s as u64,
                None => 0u64,
            }
        }),
{
    let k = info.kind;
    assert((k as u32 == 12u32) <==> (k == 12i32)) by (bit_vector);
    let u = info.code as u64;
    assert(((u >> 61u64) as u8) as int == u as int / 0x2000_0000_0000_0000
        && (((u >> 32u64) & 0x1fff_ffffu64) as u32) as int == (u as int / 0x1_0000_0000)
        % 0x2000_0000 && ((u & 0xffff_ffffu64) as u32) as int == u as int % 0x1_0000_0000)
        by (bit_vector);
}

} // verus!
