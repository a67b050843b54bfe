//! The crash context of a 32-bit x86 Linux thread, and how it is turned into
//! the CPU context that a minidump records.
use vstd::prelude::*;
use minidump_common::format as md_format;

verus! {

/// Index of `gs` in the general purpose registers of `mcontext_t`.
pub const REG_GS: usize = 0;
/// Index of `fs`.
pub const REG_FS: usize = 1;
/// Index of `es`.
pub const REG_ES: usize = 2;
/// Index of `ds`.
pub const REG_DS: usize = 3;
/// Index of `edi`.
pub const REG_EDI: usize = 4;
/// Index of `esi`.
pub const REG_ESI: usize = 5;
/// Index of `ebp`.
pub const REG_EBP: usize = 6;
/// Index of `esp` at the time of the signal (kernel view).
pub const REG_ESP: usize = 7;
/// Index of `ebx`.
pub const REG_EBX: usize = 8;
/// Index of `edx`.
pub const REG_EDX: usize = 9;
/// Index of `ecx`.
pub const REG_ECX: usize = 10;
/// Index of `eax`.
pub const REG_EAX: usize = 11;
/// Index of `eip`.
pub const REG_EIP: usize = 14;
/// Index of `cs`.
pub const REG_CS: usize = 15;
/// Index of the flags register.
pub const REG_EFL: usize = 16;
/// Index of the user stack pointer.
pub const REG_UESP: usize = 17;
/// Index of `ss`.
pub const REG_SS: usize = 18;

/// One x87 register (`_libc_fpreg`): 64 bits of significand and 16 of
/// exponent, ten bytes in memory.
#[derive(Copy, Clone)]
pub struct FpReg {
    pub significand: [u16; 4],
    pub exponent: u16,
}

/// The x87 floating point state of a 32-bit thread (`_libc_fpstate`).
#[derive(Copy, Clone)]
pub struct FloatState {
    pub cw: u32,
    pub sw: u32,
    pub tag: u32,
    pub ipoff: u32,
    pub cssel: u32,
    pub dataoff: u32,
    pub datasel: u32,
    pub st: [FpReg; 8],
}

/// The crash context of a 32-bit x86 Linux thread.
#[derive(Copy, Clone)]
pub struct CrashContext {
    /// The general purpose registers, indexed by the `REG_*` constants.
    pub gregs: [i32; 19],
    /// Float state
    pub float_state: FloatState,
    /// The number of the signal that was raised (`ssi_signo`).
    pub signo: u32,
    /// The signal's code (`ssi_code`).
    pub code: i32,
    /// The pid of the sender of the signal (`ssi_pid`).
    pub pid: u32,
    /// The id of the crashing thread
    pub tid: i32,
}

/// The x87 state as a minidump records it (`FLOATING_SAVE_AREA_X86`).
#[derive(Copy, Clone)]
pub struct FloatingSaveAreaX86 {
    pub control_word: u32,
    pub status_word: u32,
    pub tag_word: u32,
    pub error_offset: u32,
    pub error_selector: u32,
    pub data_offset: u32,
    pub data_selector: u32,
    pub register_area: [u8; 80],
    pub cr0_npx_state: u32,
}

/// The CPU context of a 32-bit x86 thread as a minidump records it
/// (`CONTEXT_X86`).
#[derive(Copy, Clone)]
pub struct CpuContextX86 {
    pub context_flags: u32,
    pub dr0: u32,
    pub dr1: u32,
    pub dr2: u32,
    pub dr3: u32,
    pub dr6: u32,
    pub dr7: u32,
    pub float_save: FloatingSaveAreaX86,
    pub gs: u32,
    pub fs: u32,
    pub es: u32,
    pub ds: u32,
    pub edi: u32,
    pub esi: u32,
    pub ebx: u32,
    pub edx: u32,
    pub ecx: u32,
    pub eax: u32,
    pub ebp: u32,
    pub eip: u32,
    pub cs: u32,
    pub eflags: u32,
    pub esp: u32,
    pub ss: u32,
    pub extended_registers: [u8; 512],
}

impl Default for CpuContextX86 {
    /// A context whose every field is zero.
    fn default() -> (c: Self)
        ensures
            c.context_flags == 0 && c.dr0 == 0 && c.dr1 == 0 && c.dr2 == 0 && c.dr3 == 0 && c.dr6
                == 0 && c.dr7 == 0 && c.gs == 0 && c.fs == 0 && c.es == 0 && c.ds == 0 && c.edi
                == 0 && c.esi == 0 && c.ebx == 0 && c.edx == 0 && c.ecx == 0 && c.eax == 0
                && c.ebp == 0 && c.eip == 0 && c.cs == 0 && c.eflags == 0 && c.esp == 0 && c.ss
                == 0,
            c.float_save.control_word == 0 && c.float_save.status_word == 0
                && c.float_save.tag_word == 0 && c.float_save.error_offset == 0
                && c.float_save.error_selector == 0 && c.float_save.data_offset == 0
                && c.float_save.data_selector == 0 && c.float_save.cr0_npx_state == 0,
            forall|i: int| 0 <= i < 80 ==> c.float_save.register_area@[i] == 0,
            forall|i: int| 0 <= i < 512 ==> c.extended_registers@[i] == 0,
    {
        CpuContextX86 {
            context_flags: 0,
            dr0: 0,
            dr1: 0,
            dr2: 0,
            dr3: 0,
            dr6: 0,
            dr7: 0,
            float_save: FloatingSaveAreaX86 {
                control_word: 0,
                status_word: 0,
                tag_word: 0,
                error_offset: 0,
                error_selector: 0,
                data_offset: 0,
                data_selector: 0,
                register_area: [0u8; 80],
                cr0_npx_state: 0,
            },
            gs: 0,
            fs: 0,
            es: 0,
            ds: 0,
            edi: 0,
            esi: 0,
            ebx: 0,
            edx: 0,
            ecx: 0,
            eax: 0,
            ebp: 0,
            eip: 0,
            cs: 0,
            eflags: 0,
            esp: 0,
            ss: 0,
            extended_registers: [0u8; 512],
        }
    }
}

/// `minidump_common::format::ContextFlagsX86::CONTEXT_X86_FULL`: the
/// control, integer and segment registers of an x86 context, `0x0001_0007`.
#[verifier::external_body]
fn context_x86_full() -> (flags: u32)
    ensures
        flags == 0x0001_0007u32,
{
    md_format::ContextFlagsX86::CONTEXT_X86_FULL.bits()
}

/// `minidump_common::format::ContextFlagsX86::CONTEXT_X86_FLOATING_POINT`:
/// the floating point registers of an x86 context, `0x0001_0008`.
#[verifier::external_body]
fn context_x86_floating_point() -> (flags: u32)
    ensures
        flags == 0x0001_0008u32,
{
    md_format::ContextFlagsX86::CONTEXT_X86_FLOATING_POINT.bits()
}

/// The byte at offset `k` of the in-memory image of the eight x87
/// registers: each register is its four significand words then its
/// exponent word, each word little endian.
pub open spec fn spec_register_byte(st: Seq<FpReg>, k: int) -> u8 {
    let r = st[k / 10];
    let w = (k % 10) / 2;
    let word = if w < 4 {
        r.significand@[w]
    } else {
        r.exponent
    };
    if k % 2 == 0 {
        (word & 0xffu16) as u8
    } else {
        (word >> 8u16) as u8
    }
}

/// The in-memory image of the eight x87 registers, 80 bytes.
pub open spec fn spec_register_area(st: Seq<FpReg>) -> Seq<u8> {
    Seq::new(80, |k: int| spec_register_byte(st, k))
}

/// Copies the in-memory image of the eight x87 registers.
pub fn register_area(st: &[FpReg; 8]) -> (bytes: [u8; 80])
    ensures
        bytes@ == spec_register_area(st@),
{
    let mut bytes = [0u8; 80];
    let mut k: usize = 0;
    while k < 80
        invariant
            k <= 80,
            bytes@.len() == 80,
            forall|j: int| 0 <= j < k ==> bytes@[j] == spec_register_byte(st@, j),
        decreases 80 - k,
    {
        let r = st[k / 10];
        let w = (k % 10) / 2;
        let word = if w < 4 {
            r.significand[w]
        } else {
            r.exponent
        };
        let b = if k % 2 == 0 {
            (word & 0xff) as u8
        } else {
            (word >> 8u16) as u8
        };
        bytes[k] = b;
        k = k + 1;
    }
    assert(bytes@ =~= spec_register_area(st@));
    bytes
}

impl CrashContext {
    /// The address of the instruction that was executing.
    pub fn instruction_pointer(&self) -> (ip: usize)
        ensures
            ip == self.gregs@[REG_EIP as int] as usize,
    {
        self.gregs[REG_EIP] as usize
    }

    /// The stack pointer of the crashing thread.
    pub fn stack_pointer(&self) -> (sp: usize)
        ensures
            sp == self.gregs@[REG_ESP as int] as usize,
    {
        self.gregs[REG_ESP] as usize
    }

    /// Fills the full x86 context (control, integer, segment and floating
    /// point registers) of the crashing thread into `out`. Each register
    /// comes from the slot of the same name in `uc_mcontext.gregs`, in
    /// glibc's i386 numbering: gs 0, fs 1, es 2, ds 3, edi 4, esi 5, ebp 6,
    /// ebx 8, edx 9, ecx 10, eax 11, eip 14, cs 15, eflags 16, the user
    /// stack pointer 17 and ss 18.
    pub fn fill_cpu_context(&self, out: &mut CpuContextX86)
        ensures
            ({
                let g = self.gregs@;
                let fs = self.float_state;
                let o = *final(out);
                &&& o.context_flags == 0x0001_000fu32
                &&& o.gs == g[REG_GS as int] as u32 && o.fs == g[REG_FS as int] as u32
                &&& o.es == g[REG_ES as int] as u32 && o.ds == g[REG_DS as int] as u32
                &&& o.edi == g[REG_EDI as int] as u32 && o.esi == g[REG_ESI as int] as u32
                &&& o.ebx == g[REG_EBX as int] as u32 && o.edx == g[REG_EDX as int] as u32
                &&& o.ecx == g[REG_ECX as int] as u32 && o.eax == g[REG_EAX as int] as u32
                &&& o.ebp == g[REG_EBP as int] as u32 && o.eip == g[REG_EIP as int] as u32
                &&& o.cs == g[REG_CS as int] as u32 && o.eflags == g[REG_EFL as int] as u32
                &&& o.esp == g[REG_UESP as int] as u32 && o.ss == g[REG_SS as int] as u32
                &&& o.dr0 == old(out).dr0 && o.dr1 == old(out).dr1 && o.dr2 == old(out).dr2
                &&& o.dr3 == old(out).dr3 && o.dr6 == old(out).dr6 && o.dr7 == old(out).dr7
                &&& o.extended_registers == old(out).extended_registers
                &&& o.float_save.control_word == fs.cw && o.float_save.status_word == fs.sw
                &&& o.float_save.tag_word == fs.tag && o.float_save.error_offset == fs.ipoff
                &&& o.float_save.error_selector == fs.cssel
                &&& o.float_save.data_offset == fs.dataoff
                &&& o.float_save.data_selector == fs.datasel
                &&& o.float_save.register_area@ == spec_register_area(fs.st@)
                &&& o.float_save.cr0_npx_state == old(out).float_save.cr0_npx_state
            }),
            ({
                let g = self.gregs@;
                let o = *final(out);
                &&& o.gs == g[0] as u32 && o.fs == g[1] as u32 && o.es == g[2] as u32
                &&& o.ds == g[3] as u32 && o.edi == g[4] as u32 && o.esi == g[5] as u32
                &&& o.ebp == g[6] as u32 && o.ebx == g[8] as u32 && o.edx == g[9] as u32
                &&& o.ecx == g[10] as u32 && o.eax == g[11] as u32 && o.eip == g[14] as u32
                &&& o.cs == g[15] as u32 && o.eflags == g[16] as u32 && o.esp == g[17] as u32
                &&& o.ss == g[18] as u32
            }),
    {
        let full = context_x86_full();
        let floating_point = context_x86_floating_point();
        assert(full | floating_point == 0x0001_000fu32) by (bit_vector)
            requires
                full == 0x0001_0007u32,
                floating_point == 0x0001_0008u32,
        ;
        out.context_flags = full | floating_point;

        let gregs = &self.gregs;
        out.gs = gregs[REG_GS] as u32;
        out.fs = gregs[REG_FS] as u32;
        out.es = gregs[REG_ES] as u32;
        out.ds = gregs[REG_DS] as u32;

        out.edi = gregs[REG_EDI] as u32;
        out.esi = gregs[REG_ESI] as u32;
        out.ebx = gregs[REG_EBX] as u32;
        out.edx = gregs[REG_EDX] as u32;
        out.ecx = gregs[REG_ECX] as u32;
        out.eax = gregs[REG_EAX] as u32;

        out.ebp = gregs[REG_EBP] as u32;
        out.eip = gregs[REG_EIP] as u32;
        out.cs = gregs[REG_CS] as u32;
        out.eflags = gregs[REG_EFL] as u32;
        out.esp = gregs[REG_UESP] as u32;
        out.ss = gregs[REG_SS] as u32;

        let fs = &self.float_state;
        out.float_save.control_word = fs.cw;
        out.float_save.status_word = fs.sw;
        out.float_save.tag_word = fs.tag;
        out.float_save.error_offset = fs.ipoff;
        out.float_save.error_selector = fs.cssel;
        out.float_save.data_offset = fs.dataoff;
        out.float_save.data_selector = fs.datasel;
        out.float_save.register_area = register_area(&fs.st);
    }
}

} // verus!
