//! The crash context of an x86_64 Linux thread, and how it is turned into
//! the CPU context that a minidump records.
use vstd::prelude::*;
use minidump_common::format as md_format;
use scroll::Pwrite;
use super::le::{
    byte, le_seq, lemma_bytes2_injective, lemma_bytes4_injective, lemma_bytes8_injective,
    lemma_words_le_chunk, lemma_words_le_from_chunks, lemma_words_le_len, push_le, read_le2,
    read_le4, read_le8, words_le,
};

verus! {

/// Index of `r8` in the general purpose registers of `mcontext_t`.
pub const REG_R8: usize = 0;
/// Index of `r9`.
pub const REG_R9: usize = 1;
/// Index of `r10`.
pub const REG_R10: usize = 2;
/// Index of `r11`.
pub const REG_R11: usize = 3;
/// Index of `r12`.
pub const REG_R12: usize = 4;
/// Index of `r13`.
pub const REG_R13: usize = 5;
/// Index of `r14`.
pub const REG_R14: usize = 6;
/// Index of `r15`.
pub const REG_R15: usize = 7;
/// Index of `rdi`.
pub const REG_RDI: usize = 8;
/// Index of `rsi`.
pub const REG_RSI: usize = 9;
/// Index of `rbp`.
pub const REG_RBP: usize = 10;
/// Index of `rbx`.
pub const REG_RBX: usize = 11;
/// Index of `rdx`.
pub const REG_RDX: usize = 12;
/// Index of `rax`.
pub const REG_RAX: usize = 13;
/// Index of `rcx`.
pub const REG_RCX: usize = 14;
/// Index of `rsp`.
pub const REG_RSP: usize = 15;
/// Index of `rip`.
pub const REG_RIP: usize = 16;
/// Index of the flags register.
pub const REG_EFL: usize = 17;
/// Index of the packed `cs`, `gs` and `fs` selectors.
pub const REG_CSGSFS: usize = 18;

/// The x87/SSE floating point state of a thread (`_libc_fpstate`).
#[derive(Copy, Clone)]
pub struct FloatState {
    pub cwd: u16,
    pub swd: u16,
    pub ftw: u16,
    pub fop: u16,
    pub rip: u64,
    pub rdp: u64,
    pub mxcsr: u32,
    pub mxcr_mask: u32,
    pub st_space: [u32; 32],
    pub xmm_space: [u32; 64],
}

/// The crash context of an x86_64 Linux thread: its general purpose
/// registers (`uc_mcontext.gregs`), its floating point state, the signal
/// that was raised (number, code, sender and fault address) and the
/// thread's id.
#[derive(Copy, Clone)]
pub struct CrashContext {
    /// The general purpose registers, indexed by the `REG_*` constants.
    pub gregs: [i64; 23],
    /// Float state
    pub float_state: FloatState,
    /// The number of the signal that was raised (`ssi_signo`).
    pub signo: u32,
    /// The signal's code (`ssi_code`).
    pub code: i32,
    /// The pid of the sender of the signal (`ssi_pid`).
    pub pid: u32,
    /// The address the fault concerns (`ssi_addr`).
    pub addr: u64,
    /// The id of the crashing thread
    pub tid: i32,
}

/// The CPU context of an x86_64 thread as a minidump records it
/// (`CONTEXT_AMD64`).
#[derive(Copy, Clone)]
pub struct CpuContextAmd64 {
    pub p1_home: u64,
    pub p2_home: u64,
    pub p3_home: u64,
    pub p4_home: u64,
    pub p5_home: u64,
    pub p6_home: u64,
    pub context_flags: u32,
    pub mx_csr: u32,
    pub cs: u16,
    pub ds: u16,
    pub es: u16,
    pub fs: u16,
    pub gs: u16,
    pub ss: u16,
    pub eflags: u32,
    pub dr0: u64,
    pub dr1: u64,
    pub dr2: u64,
    pub dr3: u64,
    pub dr6: u64,
    pub dr7: u64,
    pub rax: u64,
    pub rcx: u64,
    pub rdx: u64,
    pub rbx: u64,
    pub rsp: u64,
    pub rbp: u64,
    pub rsi: u64,
    pub rdi: u64,
    pub r8: u64,
    pub r9: u64,
    pub r10: u64,
    pub r11: u64,
    pub r12: u64,
    pub r13: u64,
    pub r14: u64,
    pub r15: u64,
    pub rip: u64,
    /// Floating point state: the little endian encoding of an
    /// `XMM_SAVE_AREA32`.
    pub float_save: [u8; 512],
    pub vector_register: [u128; 26],
    pub vector_control: u64,
    pub debug_control: u64,
    pub last_branch_to_rip: u64,
    pub last_branch_from_rip: u64,
    pub last_exception_to_rip: u64,
    pub last_exception_from_rip: u64,
}

impl CpuContextAmd64 {
    /// Whether every field is zero.
    pub open spec fn is_zeroed(self) -> bool {
        &&& self.p1_home == 0 && self.p2_home == 0 && self.p3_home == 0 && self.p4_home == 0
        &&& self.p5_home == 0 && self.p6_home == 0 && self.context_flags == 0 && self.mx_csr == 0
        &&& self.cs == 0 && self.ds == 0 && self.es == 0 && self.fs == 0 && self.gs == 0
        &&& self.ss == 0 && self.eflags == 0 && self.dr0 == 0 && self.dr1 == 0 && self.dr2 == 0
        &&& self.dr3 == 0 && self.dr6 == 0 && self.dr7 == 0 && self.rax == 0 && self.rcx == 0
        &&& self.rdx == 0 && self.rbx == 0 && self.rsp == 0 && self.rbp == 0 && self.rsi == 0
        &&& self.rdi == 0 && self.r8 == 0 && self.r9 == 0 && self.r10 == 0 && self.r11 == 0
        &&& self.r12 == 0 && self.r13 == 0 && self.r14 == 0 && self.r15 == 0 && self.rip == 0
        &&& forall|i: int| 0 <= i < 512 ==> self.float_save@[i] == 0
        &&& forall|i: int| 0 <= i < 26 ==> self.vector_register@[i] == 0
        &&& self.vector_control == 0 && self.debug_control == 0
        &&& self.last_branch_to_rip == 0 && self.last_branch_from_rip == 0
        &&& self.last_exception_to_rip == 0 && self.last_exception_from_rip == 0
    }
}

impl Default for CpuContextAmd64 {
    /// A context whose every field is zero.
    fn default() -> (c: Self)
        ensures
            c.is_zeroed(),
    {
        CpuContextAmd64 {
            p1_home: 0,
            p2_home: 0,
            p3_home: 0,
            p4_home: 0,
            p5_home: 0,
            p6_home: 0,
            context_flags: 0,
            mx_csr: 0,
            cs: 0,
            ds: 0,
            es: 0,
            fs: 0,
            gs: 0,
            ss: 0,
            eflags: 0,
            dr0: 0,
            dr1: 0,
            dr2: 0,
            dr3: 0,
            dr6: 0,
            dr7: 0,
            rax: 0,
            rcx: 0,
            rdx: 0,
            rbx: 0,
            rsp: 0,
            rbp: 0,
            rsi: 0,
            rdi: 0,
            r8: 0,
            r9: 0,
            r10: 0,
            r11: 0,
            r12: 0,
            r13: 0,
            r14: 0,
            r15: 0,
            rip: 0,
            float_save: [0u8; 512],
            vector_register: [0u128; 26],
            vector_control: 0,
            debug_control: 0,
            last_branch_to_rip: 0,
            last_branch_from_rip: 0,
            last_exception_to_rip: 0,
            last_exception_from_rip: 0,
        }
    }
}

/// The little endian bytes of a 128-bit register.
pub open spec fn le128(x: u128) -> Seq<u8> {
    Seq::new(16, |j: int| ((x >> (8 * j) as u128) & 0xffu128) as u8)
}

/// The little endian bytes of the 128-bit registers of `s`, one after the
/// other.
pub open spec fn words128_le(s: Seq<u128>) -> Seq<u8>
    decreases s.len(),
{
    if s.len() == 0 {
        Seq::empty()
    } else {
        words128_le(s.drop_last()) + le128(s.last())
    }
}

/// `n` zero bytes.
pub open spec fn zeros(n: nat) -> Seq<u8> {
    Seq::new(n, |j: int| 0u8)
}

/// The 512 byte `XMM_SAVE_AREA32` with the given fields, every field in
/// declaration order, little endian and without padding: the control,
/// status and tag words, a reserved byte, the error opcode and offset, the
/// error selector and a reserved word, the data offset, the data selector
/// and a reserved word, `MXCSR` and its mask, the eight x87 registers, the
/// sixteen XMM registers and 96 reserved bytes. Selectors and reserved
/// fields are zero.
pub open spec fn xmm_save_area_bytes(
    control_word: u16,
    status_word: u16,
    tag_word: u8,
    error_opcode: u16,
    error_offset: u32,
    data_offset: u32,
    mx_csr: u32,
    mx_csr_mask: u32,
    float_registers: Seq<u128>,
    xmm_registers: Seq<u128>,
) -> Seq<u8> {
    le_seq(control_word as u64, 2) + le_seq(status_word as u64, 2) + seq![tag_word, 0u8]
        + le_seq(error_opcode as u64, 2) + le_seq(error_offset as u64, 4) + zeros(4) + le_seq(
        data_offset as u64,
        4,
    ) + zeros(4) + le_seq(mx_csr as u64, 4) + le_seq(mx_csr_mask as u64, 4) + words128_le(
        float_registers,
    ) + words128_le(xmm_registers) + zeros(96)
}

/// Writes, with `scroll`'s `Pwrite` in little endian, the
/// `minidump_common::format::XMM_SAVE_AREA32` made of the given fields (the
/// selectors and reserved fields are zero) into a 512 byte buffer. The
/// derived `Pwrite` writes the fields in declaration order, each little
/// endian, arrays element by element, without padding; the structure is
/// exactly 512 bytes long, so the write always succeeds. The bytes are
/// those of [`xmm_save_area_bytes`].
#[verifier::external_body]
fn encode_xmm_save_area(
    control_word: u16,
    status_word: u16,
    tag_word: u8,
    error_opcode: u16,
    error_offset: u32,
    data_offset: u32,
    mx_csr: u32,
    mx_csr_mask: u32,
    float_registers: [u128; 8],
    xmm_registers: [u128; 16],
) -> (bytes: [u8; 512])
    ensures
        bytes@ == xmm_save_area_bytes(control_word, status_word, tag_word, error_opcode,
            error_offset, data_offset, mx_csr, mx_csr_mask, float_registers@, xmm_registers@),
{
    let area = md_format::XMM_SAVE_AREA32 { control_word, status_word, tag_word, error_opcode,
        error_offset, data_offset, mx_csr, mx_csr_mask, float_registers, xmm_registers,
        ..Default::default() };
    let mut bytes = [0u8; 512];
    bytes.pwrite_with(area, 0, scroll::Endian::Little).expect("the area is 512 bytes long");
    bytes
}

/// `minidump_common::format::ContextFlagsAmd64::CONTEXT_AMD64_FULL`: the
/// control, integer and floating point registers of an AMD64 context,
/// `0x0010_000b`.
#[verifier::external_body]
fn context_amd64_full() -> (flags: u32)
    ensures
        flags == 0x0010_000bu32,
{
    md_format::ContextFlagsAmd64::CONTEXT_AMD64_FULL.bits()
}

/// The 128-bit register whose four 32-bit words, least significant first,
/// are `w0` to `w3`.
pub open spec fn spec_pack_u128(w0: u32, w1: u32, w2: u32, w3: u32) -> u128 {
    (w0 as u128) | ((w1 as u128) << 32u128) | ((w2 as u128) << 64u128) | ((w3 as u128)
        << 96u128)
}

/// Builds a 128-bit register out of four 32-bit words, least significant
/// first, as they lie in memory on a little endian machine.
pub fn pack_u128(w0: u32, w1: u32, w2: u32, w3: u32) -> (r: u128)
    ensures
        r == spec_pack_u128(w0, w1, w2, w3),
        r as u32 == w0,
        (r >> 32u128) as u32 == w1,
        (r >> 64u128) as u32 == w2,
        (r >> 96u128) as u32 == w3,
{
    let r = (w0 as u128) | ((w1 as u128) << 32u32) | ((w2 as u128) << 64u32) | ((w3 as u128)
        << 96u32);
    assert(r as u32 == w0 && (r >> 32u128) as u32 == w1 && (r >> 64u128) as u32 == w2 && (r
        >> 96u128) as u32 == w3) by (bit_vector)
        requires
            r == (w0 as u128) | ((w1 as u128) << 32u128) | ((w2 as u128) << 64u128) | ((
                w3 as u128) << 96u128),
    ;
    r
}

/// The registers that a run of 32-bit words holds, four words to a
/// register: as many registers as both the destination and the words allow.
pub open spec fn spec_u32_registers(words: Seq<u32>, count: int) -> Seq<u128> {
    Seq::new(
        count as nat,
        |i: int|
            spec_pack_u128(words[4 * i], words[4 * i + 1], words[4 * i + 2], words[4 * i + 3]),
    )
}

/// The eight x87 registers held in `st_space`.
pub fn x87_registers(st_space: &[u32; 32]) -> (regs: [u128; 8])
    ensures
        regs@ == spec_u32_registers(st_space@, 8),
{
    let mut regs = [0u128; 8];
    let mut i: usize = 0;
    while i < 8
        invariant
            i <= 8,
            regs@.len() == 8,
            forall|j: int|
                0 <= j < i ==> regs@[j] == spec_pack_u128(
                    st_space@[4 * j],
                    st_space@[4 * j + 1],
                    st_space@[4 * j + 2],
                    st_space@[4 * j + 3],
                ),
        decreases 8 - i,
    {
        let v = pack_u128(st_space[4 * i], st_space[4 * i + 1], st_space[4 * i + 2], st_space[4 * i + 3]);
        regs[i] = v;
        i = i + 1;
    }
    assert(regs@ =~= spec_u32_registers(st_space@, 8));
    regs
}

/// The sixteen XMM registers held in `xmm_space`.
pub fn xmm_registers(xmm_space: &[u32; 64]) -> (regs: [u128; 16])
    ensures
        regs@ == spec_u32_registers(xmm_space@, 16),
{
    let mut regs = [0u128; 16];
    let mut i: usize = 0;
    while i < 16
        invariant
            i <= 16,
            regs@.len() == 16,
            forall|j: int|
                0 <= j < i ==> regs@[j] == spec_pack_u128(
                    xmm_space@[4 * j],
                    xmm_space@[4 * j + 1],
                    xmm_space@[4 * j + 2],
                    xmm_space@[4 * j + 3],
                ),
        decreases 16 - i,
    {
        let v = pack_u128(xmm_space[4 * i], xmm_space[4 * i + 1], xmm_space[4 * i + 2], xmm_space[4 * i + 3]);
        regs[i] = v;
        i = i + 1;
    }
    assert(regs@ =~= spec_u32_registers(xmm_space@, 16));
    regs
}

/// A general purpose register, reinterpreted as unsigned.
pub open spec fn reg(c: CrashContext, index: usize) -> u64 {
    c.gregs@[index as int] as u64
}

/// The code segment selector, bits `[15:0]` of the packed selectors.
pub open spec fn spec_cs(csgsfs: i64) -> u16 {
    ((csgsfs as u64) & 0xffffu64) as u16
}

/// The `gs` selector, bits `[31:16]` of the packed selectors.
pub open spec fn spec_gs(csgsfs: i64) -> u16 {
    (((csgsfs as u64) >> 16u64) & 0xffffu64) as u16
}

/// The `fs` selector, bits `[47:32]` of the packed selectors.
pub open spec fn spec_fs(csgsfs: i64) -> u16 {
    (((csgsfs as u64) >> 32u64) & 0xffffu64) as u16
}

/// The CPU context that `fill_cpu_context` writes into `before`: the
/// registers, flags and floating point state are those of the crash, every
/// other field keeps its value.
pub open spec fn spec_filled(c: CrashContext, before: CpuContextAmd64) -> CpuContextAmd64 {
    let g = c.gregs@;
    let fs = c.float_state;
    CpuContextAmd64 {
        context_flags: 0x0010_000bu32,
        cs: spec_cs(g[REG_CSGSFS as int]),
        fs: spec_fs(g[REG_CSGSFS as int]),
        gs: spec_gs(g[REG_CSGSFS as int]),
        eflags: g[REG_EFL as int] as u32,
        rax: reg(c, REG_RAX),
        rcx: reg(c, REG_RCX),
        rdx: reg(c, REG_RDX),
        rbx: reg(c, REG_RBX),
        rsp: reg(c, REG_RSP),
        rbp: reg(c, REG_RBP),
        rsi: reg(c, REG_RSI),
        rdi: reg(c, REG_RDI),
        r8: reg(c, REG_R8),
        r9: reg(c, REG_R9),
        r10: reg(c, REG_R10),
        r11: reg(c, REG_R11),
        r12: reg(c, REG_R12),
        r13: reg(c, REG_R13),
        r14: reg(c, REG_R14),
        r15: reg(c, REG_R15),
        rip: reg(c, REG_RIP),
        float_save: before.float_save,
        ..before
    }
}

/// The floating point state that `fill_cpu_context` records.
pub open spec fn spec_float_save(c: CrashContext) -> Seq<u8> {
    let fs = c.float_state;
    xmm_save_area_bytes(
        fs.cwd,
        fs.swd,
        fs.ftw as u8,
        fs.fop,
        fs.rip as u32,
        fs.rdp as u32,
        fs.mxcsr,
        fs.mxcr_mask,
        spec_u32_registers(fs.st_space@, 8),
        spec_u32_registers(fs.xmm_space@, 16),
    )
}

impl CrashContext {
    /// The address of the instruction that was executing.
    pub fn instruction_pointer(&self) -> (ip: usize)
        ensures
            ip == self.gregs@[REG_RIP as int] as usize,
    {
        self.gregs[REG_RIP] as usize
    }

    /// The stack pointer of the crashing thread.
    pub fn stack_pointer(&self) -> (sp: usize)
        ensures
            sp == self.gregs@[REG_RSP as int] as usize,
    {
        self.gregs[REG_RSP] as usize
    }

    /// Fills the full AMD64 context (control, integer and floating point
    /// registers) of the crashing thread into `out`.
    pub fn fill_cpu_context(&self, out: &mut CpuContextAmd64)
        ensures
            ({
                let f = spec_filled(*self, *old(out));
                &&& final(out).context_flags == f.context_flags
                &&& final(out).cs == f.cs && final(out).fs == f.fs && final(out).gs == f.gs
                &&& final(out).eflags == f.eflags
                &&& final(out).rax == f.rax && final(out).rcx == f.rcx && final(out).rdx == f.rdx
                &&& final(out).rbx == f.rbx && final(out).rsp == f.rsp && final(out).rbp == f.rbp
                &&& final(out).rsi == f.rsi && final(out).rdi == f.rdi && final(out).r8 == f.r8
                &&& final(out).r9 == f.r9 && final(out).r10 == f.r10 && final(out).r11 == f.r11
                &&& final(out).r12 == f.r12 && final(out).r13 == f.r13 && final(out).r14 == f.r14
                &&& final(out).r15 == f.r15 && final(out).rip == f.rip
                &&& final(out).p1_home == f.p1_home && final(out).p2_home == f.p2_home
                &&& final(out).p3_home == f.p3_home && final(out).p4_home == f.p4_home
                &&& final(out).p5_home == f.p5_home && final(out).p6_home == f.p6_home
                &&& final(out).mx_csr == f.mx_csr && final(out).ds == f.ds && final(out).es == f.es
                &&& final(out).ss == f.ss && final(out).dr0 == f.dr0 && final(out).dr1 == f.dr1
                &&& final(out).dr2 == f.dr2 && final(out).dr3 == f.dr3 && final(out).dr6 == f.dr6
                &&& final(out).dr7 == f.dr7
                &&& final(out).vector_register == f.vector_register
                &&& final(out).vector_control == f.vector_control
                &&& final(out).debug_control == f.debug_control
                &&& final(out).last_branch_to_rip == f.last_branch_to_rip
                &&& final(out).last_branch_from_rip == f.last_branch_from_rip
                &&& final(out).last_exception_to_rip == f.last_exception_to_rip
                &&& final(out).last_exception_from_rip == f.last_exception_from_rip
                &&& final(out).float_save@ == spec_float_save(*self)
            }),
            final(out).rax == self.gregs@[REG_RAX as int] as u64,
            final(out).rcx == self.gregs@[REG_RCX as int] as u64,
            final(out).rdx == self.gregs@[REG_RDX as int] as u64,
            final(out).rbx == self.gregs@[REG_RBX as int] as u64,
            final(out).rsp == self.gregs@[REG_RSP as int] as u64,
            final(out).rbp == self.gregs@[REG_RBP as int] as u64,
            final(out).rsi == self.gregs@[REG_RSI as int] as u64,
            final(out).rdi == self.gregs@[REG_RDI as int] as u64,
            final(out).r8 == self.gregs@[REG_R8 as int] as u64,
            final(out).r9 == self.gregs@[REG_R9 as int] as u64,
            final(out).r10 == self.gregs@[REG_R10 as int] as u64,
            final(out).r11 == self.gregs@[REG_R11 as int] as u64,
            final(out).r12 == self.gregs@[REG_R12 as int] as u64,
            final(out).r13 == self.gregs@[REG_R13 as int] as u64,
            final(out).r14 == self.gregs@[REG_R14 as int] as u64,
            final(out).r15 == self.gregs@[REG_R15 as int] as u64,
            final(out).rip == self.gregs@[REG_RIP as int] as u64,
            final(out).eflags == self.gregs@[REG_EFL as int] as u32,
    {
        out.context_flags = context_amd64_full();

        let gregs = &self.gregs;
        let csgsfs = gregs[REG_CSGSFS];
        out.cs = (csgsfs & 0xffff) as u16;
        out.fs = ((csgsfs >> 32u32) & 0xffff) as u16;
        out.gs = ((csgsfs >> 16u32) & 0xffff) as u16;
        assert((csgsfs & 0xffffi64) as u16 == ((csgsfs as u64) & 0xffffu64) as u16
            && ((csgsfs >> 32u32) & 0xffffi64) as u16 == (((csgsfs as u64) >> 32u64) & 0xffffu64) as u16
            && ((csgsfs >> 16u32) & 0xffffi64) as u16 == (((csgsfs as u64) >> 16u64) & 0xffffu64) as u16)
            by (bit_vector);

        out.eflags = gregs[REG_EFL] as u32;

        out.rax = gregs[REG_RAX] as u64;
        out.rcx = gregs[REG_RCX] as u64;
        out.rdx = gregs[REG_RDX] as u64;
        out.rbx = gregs[REG_RBX] as u64;

        out.rsp = gregs[REG_RSP] as u64;
        out.rbp = gregs[REG_RBP] as u64;
        out.rsi = gregs[REG_RSI] as u64;
        out.rdi = gregs[REG_RDI] as u64;
        out.r8 = gregs[REG_R8] as u64;
        out.r9 = gregs[REG_R9] as u64;
        out.r10 = gregs[REG_R10] as u64;
        out.r11 = gregs[REG_R11] as u64;
        out.r12 = gregs[REG_R12] as u64;
        out.r13 = gregs[REG_R13] as u64;
        out.r14 = gregs[REG_R14] as u64;
        out.r15 = gregs[REG_R15] as u64;

        out.rip = gregs[REG_RIP] as u64;

        let fs = &self.float_state;
        let float_registers = x87_registers(&fs.st_space);
        let xmm = xmm_registers(&fs.xmm_space);
        out.float_save = encode_xmm_save_area(
            fs.cwd,
            fs.swd,
            fs.ftw as u8,
            fs.fop,
            fs.rip as u32,
            fs.rdp as u32,
            fs.mxcsr,
            fs.mxcr_mask,
            float_registers,
            xmm,
        );
    }
}

/// The size of the byte image of a crash context.
pub const CRASH_CONTEXT_SIZE: usize = 624;

/// The general purpose registers, reinterpreted as unsigned.
pub open spec fn gregs_words(c: CrashContext) -> Seq<u64> {
    c.gregs@.map_values(|g: i64| g as u64)
}

/// 32-bit words, widened.
pub open spec fn u32_words(s: Seq<u32>) -> Seq<u64> {
    s.map_values(|w: u32| w as u64)
}

impl CrashContext {
    /// The byte image of the crash context, as it is sent to another process:
    /// every field in declaration order, little endian, without padding.
    pub open spec fn spec_bytes(self) -> Seq<u8> {
        let fs = self.float_state;
        words_le(gregs_words(self), 8) + le_seq(fs.cwd as u64, 2) + le_seq(fs.swd as u64, 2)
            + le_seq(fs.ftw as u64, 2) + le_seq(fs.fop as u64, 2) + le_seq(fs.rip, 8) + le_seq(
            fs.rdp,
            8,
        ) + le_seq(fs.mxcsr as u64, 4) + le_seq(fs.mxcr_mask as u64, 4) + words_le(
            u32_words(fs.st_space@),
            4,
        ) + words_le(u32_words(fs.xmm_space@), 4) + le_seq(self.signo as u64, 4) + le_seq(
            self.code as u32 as u64,
            4,
        ) + le_seq(self.pid as u64, 4) + le_seq(self.addr, 8) + le_seq(self.tid as u32 as u64, 4)
    }

    /// The byte image of the crash context.
    pub fn as_bytes(&self) -> (b: Vec<u8>)
        ensures
            b@ == self.spec_bytes(),
            b@.len() == CRASH_CONTEXT_SIZE,
    {
        let mut v: Vec<u8> = Vec::new();
        let mut i: usize = 0;
        while i < 23
            invariant
                i <= 23,
                v@ == words_le(gregs_words(*self).take(i as int), 8),
            decreases 23 - i,
        {
            push_le(&mut v, self.gregs[i] as u64, 8);
            proof {
                let w = gregs_words(*self);
                assert(w.take(i + 1).drop_last() =~= w.take(i as int));
            }
            i = i + 1;
        }
        assert(gregs_words(*self).take(23) =~= gregs_words(*self));
        let fs = &self.float_state;
        push_le(&mut v, fs.cwd as u64, 2);
        push_le(&mut v, fs.swd as u64, 2);
        push_le(&mut v, fs.ftw as u64, 2);
        push_le(&mut v, fs.fop as u64, 2);
        push_le(&mut v, fs.rip, 8);
        push_le(&mut v, fs.rdp, 8);
        push_le(&mut v, fs.mxcsr as u64, 4);
        push_le(&mut v, fs.mxcr_mask as u64, 4);
        let ghost head = v@;
        let mut i: usize = 0;
        while i < 32
            invariant
                i <= 32,
                v@ == head + words_le(u32_words(fs.st_space@).take(i as int), 4),
            decreases 32 - i,
        {
            push_le(&mut v, fs.st_space[i] as u64, 4);
            proof {
                let w = u32_words(fs.st_space@);
                assert(w.take(i + 1).drop_last() =~= w.take(i as int));
            }
            i = i + 1;
        }
        assert(u32_words(fs.st_space@).take(32) =~= u32_words(fs.st_space@));
        let ghost head = v@;
        let mut i: usize = 0;
        while i < 64
            invariant
                i <= 64,
                v@ == head + words_le(u32_words(fs.xmm_space@).take(i as int), 4),
            decreases 64 - i,
        {
            push_le(&mut v, fs.xmm_space[i] as u64, 4);
            proof {
                let w = u32_words(fs.xmm_space@);
                assert(w.take(i + 1).drop_last() =~= w.take(i as int));
            }
            i = i + 1;
        }
        assert(u32_words(fs.xmm_space@).take(64) =~= u32_words(fs.xmm_space@));
        push_le(&mut v, self.signo as u64, 4);
        push_le(&mut v, self.code as u32 as u64, 4);
        push_le(&mut v, self.pid as u64, 4);
        push_le(&mut v, self.addr, 8);
        push_le(&mut v, self.tid as u32 as u64, 4);
        proof {
            lemma_words_le_len(gregs_words(*self), 8);
            lemma_words_le_len(u32_words(fs.st_space@), 4);
            lemma_words_le_len(u32_words(fs.xmm_space@), 4);
            assert(v@ =~= self.spec_bytes());
        }
        v
    }
}

impl CrashContext {
    /// Reads a crash context back from its byte image; `None` when the bytes
    /// are not exactly [`CRASH_CONTEXT_SIZE`] long.
    pub fn from_bytes(bytes: &[u8]) -> (r: Option<Self>)
        ensures
            r is Some <==> bytes@.len() == CRASH_CONTEXT_SIZE,
            r matches Some(c) ==> c.spec_bytes() == bytes@,
    {
        if bytes.len() != CRASH_CONTEXT_SIZE {
            return None;
        }
        let ghost b = bytes@;
        let mut gregs = [0i64; 23];
        let mut i: usize = 0;
        while i < 23
            invariant
                i <= 23,
                b == bytes@,
                b.len() == CRASH_CONTEXT_SIZE,
                forall|k: int|
                    0 <= k < i ==> b.subrange(8 * k, 8 * k + 8) == le_seq(
                        (#[trigger] gregs@[k]) as u64,
                        8,
                    ),
            decreases 23 - i,
        {
            let x = read_le8(bytes, 8 * i);
            assert((x as i64) as u64 == x) by (bit_vector);
            gregs[i] = x as i64;
            i = i + 1;
        }
        let cwd = read_le2(bytes, 184);
        let swd = read_le2(bytes, 186);
        let ftw = read_le2(bytes, 188);
        let fop = read_le2(bytes, 190);
        let rip = read_le8(bytes, 192);
        let rdp = read_le8(bytes, 200);
        let mxcsr = read_le4(bytes, 208);
        let mxcr_mask = read_le4(bytes, 212);
        let mut st_space = [0u32; 32];
        let mut i: usize = 0;
        while i < 32
            invariant
                i <= 32,
                b == bytes@,
                b.len() == CRASH_CONTEXT_SIZE,
                forall|k: int|
                    0 <= k < i ==> b.subrange(216 + 4 * k, 216 + 4 * k + 4) == le_seq(
                        (#[trigger] st_space@[k]) as u64,
                        4,
                    ),
            decreases 32 - i,
        {
            st_space[i] = read_le4(bytes, 216 + 4 * i);
            i = i + 1;
        }
        let mut xmm_space = [0u32; 64];
        let mut i: usize = 0;
        while i < 64
            invariant
                i <= 64,
                b == bytes@,
                b.len() == CRASH_CONTEXT_SIZE,
                forall|k: int|
                    0 <= k < i ==> b.subrange(344 + 4 * k, 344 + 4 * k + 4) == le_seq(
                        (#[trigger] xmm_space@[k]) as u64,
                        4,
                    ),
            decreases 64 - i,
        {
            xmm_space[i] = read_le4(bytes, 344 + 4 * i);
            i = i + 1;
        }
        let signo = read_le4(bytes, 600);
        let code_bits = read_le4(bytes, 604);
        let pid = read_le4(bytes, 608);
        let addr = read_le8(bytes, 612);
        let tid_bits = read_le4(bytes, 620);
        assert((code_bits as i32) as u32 == code_bits && (tid_bits as i32) as u32 == tid_bits)
            by (bit_vector);
        let c = CrashContext {
            gregs,
            float_state: FloatState {
                cwd,
                swd,
                ftw,
                fop,
                rip,
                rdp,
                mxcsr,
                mxcr_mask,
                st_space,
                xmm_space,
            },
            signo,
            code: code_bits as i32,
            pid,
            addr,
            tid: tid_bits as i32,
        };
        proof {
            let g = b.subrange(0, 184);
            assert forall|k: int| 0 <= k < 23 implies g.subrange(8 * k, 8 * k + 8) == le_seq(
                #[trigger] gregs_words(c)[k],
                8,
            ) by {
                assert(g.subrange(8 * k, 8 * k + 8) =~= b.subrange(8 * k, 8 * k + 8));
                assert(gregs@[k] == c.gregs@[k]);
            }
            lemma_words_le_from_chunks(g, gregs_words(c), 8);
            let st = b.subrange(216, 344);
            assert forall|k: int| 0 <= k < 32 implies st.subrange(4 * k, 4 * k + 4) == le_seq(
                #[trigger] u32_words(c.float_state.st_space@)[k],
                4,
            ) by {
                assert(st.subrange(4 * k, 4 * k + 4) =~= b.subrange(216 + 4 * k, 216 + 4 * k + 4));
                assert(st_space@[k] == c.float_state.st_space@[k]);
            }
            lemma_words_le_from_chunks(st, u32_words(c.float_state.st_space@), 4);
            let xmm = b.subrange(344, 600);
            assert forall|k: int| 0 <= k < 64 implies xmm.subrange(4 * k, 4 * k + 4) == le_seq(
                #[trigger] u32_words(c.float_state.xmm_space@)[k],
                4,
            ) by {
                assert(xmm.subrange(4 * k, 4 * k + 4) =~= b.subrange(
                    344 + 4 * k,
                    344 + 4 * k + 4,
                ));
                assert(xmm_space@[k] == c.float_state.xmm_space@[k]);
            }
            lemma_words_le_from_chunks(xmm, u32_words(c.float_state.xmm_space@), 4);
            assert(b =~= g + b.subrange(184, 186) + b.subrange(186, 188) + b.subrange(188, 190)
                + b.subrange(190, 192) + b.subrange(192, 200) + b.subrange(200, 208) + b.subrange(
                208,
                212,
            ) + b.subrange(212, 216) + st + xmm + b.subrange(600, 604) + b.subrange(604, 608)
                + b.subrange(608, 612) + b.subrange(612, 620) + b.subrange(620, 624));
        }
        Some(c)
    }
}

/// Where each field lies in the byte image.
proof fn lemma_spec_bytes_pieces(c: CrashContext)
    ensures
        ({
            let b = c.spec_bytes();
            let fs = c.float_state;
            &&& b.len() == CRASH_CONTEXT_SIZE
            &&& b.subrange(0, 184) == words_le(gregs_words(c), 8)
            &&& b.subrange(184, 186) == le_seq(fs.cwd as u64, 2)
            &&& b.subrange(186, 188) == le_seq(fs.swd as u64, 2)
            &&& b.subrange(188, 190) == le_seq(fs.ftw as u64, 2)
            &&& b.subrange(190, 192) == le_seq(fs.fop as u64, 2)
            &&& b.subrange(192, 200) == le_seq(fs.rip, 8)
            &&& b.subrange(200, 208) == le_seq(fs.rdp, 8)
            &&& b.subrange(208, 212) == le_seq(fs.mxcsr as u64, 4)
            &&& b.subrange(212, 216) == le_seq(fs.mxcr_mask as u64, 4)
            &&& b.subrange(216, 344) == words_le(u32_words(fs.st_space@), 4)
            &&& b.subrange(344, 600) == words_le(u32_words(fs.xmm_space@), 4)
            &&& b.subrange(600, 604) == le_seq(c.signo as u64, 4)
            &&& b.subrange(604, 608) == le_seq(c.code as u32 as u64, 4)
            &&& b.subrange(608, 612) == le_seq(c.pid as u64, 4)
            &&& b.subrange(612, 620) == le_seq(c.addr, 8)
            &&& b.subrange(620, 624) == le_seq(c.tid as u32 as u64, 4)
        }),
{
    let fs = c.float_state;
    lemma_words_le_len(gregs_words(c), 8);
    lemma_words_le_len(u32_words(fs.st_space@), 4);
    lemma_words_le_len(u32_words(fs.xmm_space@), 4);
    let b = c.spec_bytes();
    assert(b.subrange(0, 184) =~= words_le(gregs_words(c), 8));
    assert(b.subrange(184, 186) =~= le_seq(fs.cwd as u64, 2));
    assert(b.subrange(186, 188) =~= le_seq(fs.swd as u64, 2));
    assert(b.subrange(188, 190) =~= le_seq(fs.ftw as u64, 2));
    assert(b.subrange(190, 192) =~= le_seq(fs.fop as u64, 2));
    assert(b.subrange(192, 200) =~= le_seq(fs.rip, 8));
    assert(b.subrange(200, 208) =~= le_seq(fs.rdp, 8));
    assert(b.subrange(208, 212) =~= le_seq(fs.mxcsr as u64, 4));
    assert(b.subrange(212, 216) =~= le_seq(fs.mxcr_mask as u64, 4));
    assert(b.subrange(216, 344) =~= words_le(u32_words(fs.st_space@), 4));
    assert(b.subrange(344, 600) =~= words_le(u32_words(fs.xmm_space@), 4));
    assert(b.subrange(600, 604) =~= le_seq(c.signo as u64, 4));
    assert(b.subrange(604, 608) =~= le_seq(c.code as u32 as u64, 4));
    assert(b.subrange(608, 612) =~= le_seq(c.pid as u64, 4));
    assert(b.subrange(612, 620) =~= le_seq(c.addr, 8));
    assert(b.subrange(620, 624) =~= le_seq(c.tid as u32 as u64, 4));
}

/// Equal encodings of 8 bytes are encodings of equal integers.
proof fn lemma_le8_injective(x: u64, y: u64)
    requires
        le_seq(x, 8) == le_seq(y, 8),
    ensures
        x == y,
{
    assert(byte(x, 0) == le_seq(x, 8)[0] && byte(y, 0) == le_seq(y, 8)[0]);
    assert(byte(x, 1) == le_seq(x, 8)[1] && byte(y, 1) == le_seq(y, 8)[1]);
    assert(byte(x, 2) == le_seq(x, 8)[2] && byte(y, 2) == le_seq(y, 8)[2]);
    assert(byte(x, 3) == le_seq(x, 8)[3] && byte(y, 3) == le_seq(y, 8)[3]);
    assert(byte(x, 4) == le_seq(x, 8)[4] && byte(y, 4) == le_seq(y, 8)[4]);
    assert(byte(x, 5) == le_seq(x, 8)[5] && byte(y, 5) == le_seq(y, 8)[5]);
    assert(byte(x, 6) == le_seq(x, 8)[6] && byte(y, 6) == le_seq(y, 8)[6]);
    assert(byte(x, 7) == le_seq(x, 8)[7] && byte(y, 7) == le_seq(y, 8)[7]);
    lemma_bytes8_injective(x, y);
}

/// Equal encodings of 4 bytes are encodings of equal 32-bit integers.
proof fn lemma_le4_injective(x: u64, y: u64)
    requires
        x < 0x1_0000_0000,
        y < 0x1_0000_0000,
        le_seq(x, 4) == le_seq(y, 4),
    ensures
        x == y,
{
    assert(byte(x, 0) == le_seq(x, 4)[0] && byte(y, 0) == le_seq(y, 4)[0]);
    assert(byte(x, 1) == le_seq(x, 4)[1] && byte(y, 1) == le_seq(y, 4)[1]);
    assert(byte(x, 2) == le_seq(x, 4)[2] && byte(y, 2) == le_seq(y, 4)[2]);
    assert(byte(x, 3) == le_seq(x, 4)[3] && byte(y, 3) == le_seq(y, 4)[3]);
    lemma_bytes4_injective(x, y);
}

/// Equal encodings of 2 bytes are encodings of equal 16-bit integers.
proof fn lemma_le2_injective(x: u64, y: u64)
    requires
        x < 0x1_0000,
        y < 0x1_0000,
        le_seq(x, 2) == le_seq(y, 2),
    ensures
        x == y,
{
    assert(byte(x, 0) == le_seq(x, 2)[0] && byte(y, 0) == le_seq(y, 2)[0]);
    assert(byte(x, 1) == le_seq(x, 2)[1] && byte(y, 1) == le_seq(y, 2)[1]);
    lemma_bytes2_injective(x, y);
}

/// Equal encodings of runs of 32-bit words are encodings of equal runs.
proof fn lemma_u32_words_injective(s: Seq<u32>, t: Seq<u32>)
    requires
        s.len() == t.len(),
        words_le(u32_words(s), 4) == words_le(u32_words(t), 4),
    ensures
        s == t,
{
    assert forall|k: int| 0 <= k < s.len() implies s[k] == t[k] by {
        lemma_words_le_chunk(u32_words(s), 4, k);
        lemma_words_le_chunk(u32_words(t), 4, k);
        lemma_le4_injective(s[k] as u64, t[k] as u64);
    }
    assert(s =~= t);
}

/// A crash context is determined by its byte image: reading back the bytes
/// of a context gives that very context.
pub proof fn lemma_bytes_determine_context(c1: CrashContext, c2: CrashContext)
    requires
        c1.spec_bytes() == c2.spec_bytes(),
    ensures
        c1 == c2,
{
    broadcast use vstd::array::group_array_axioms;

    lemma_spec_bytes_pieces(c1);
    lemma_spec_bytes_pieces(c2);
    let f1 = c1.float_state;
    let f2 = c2.float_state;
    assert forall|k: int| 0 <= k < 23 implies c1.gregs@[k] == c2.gregs@[k] by {
        lemma_words_le_chunk(gregs_words(c1), 8, k);
        lemma_words_le_chunk(gregs_words(c2), 8, k);
        lemma_le8_injective(c1.gregs@[k] as u64, c2.gregs@[k] as u64);
        let (x, y) = (c1.gregs@[k], c2.gregs@[k]);
        assert(x == y) by (bit_vector)
            requires
                x as u64 == y as u64,
        ;
    }
    assert(c1.gregs@ =~= c2.gregs@);
    lemma_u32_words_injective(f1.st_space@, f2.st_space@);
    lemma_u32_words_injective(f1.xmm_space@, f2.xmm_space@);
    lemma_le2_injective(f1.cwd as u64, f2.cwd as u64);
    lemma_le2_injective(f1.swd as u64, f2.swd as u64);
    lemma_le2_injective(f1.ftw as u64, f2.ftw as u64);
    lemma_le2_injective(f1.fop as u64, f2.fop as u64);
    lemma_le8_injective(f1.rip, f2.rip);
    lemma_le8_injective(f1.rdp, f2.rdp);
    lemma_le4_injective(f1.mxcsr as u64, f2.mxcsr as u64);
    lemma_le4_injective(f1.mxcr_mask as u64, f2.mxcr_mask as u64);
    lemma_le4_injective(c1.signo as u64, c2.signo as u64);
    lemma_le4_injective(c1.code as u32 as u64, c2.code as u32 as u64);
    lemma_le4_injective(c1.pid as u64, c2.pid as u64);
    lemma_le8_injective(c1.addr, c2.addr);
    lemma_le4_injective(c1.tid as u32 as u64, c2.tid as u32 as u64);
    let (a, b, d, e) = (c1.code, c2.code, c1.tid, c2.tid);
    assert(a == b && d == e) by (bit_vector)
        requires
            a as u32 == b as u32,
            d as u32 == e as u32,
    ;
    assert(c1.gregs == c2.gregs);
    assert(f1.st_space == f2.st_space);
    assert(f1.xmm_space == f2.xmm_space);
}

/// Filling reads every register of the minidump context from the slot of
/// the same name in `uc_mcontext.gregs` (glibc's numbering for x86_64: r8
/// to r15 are slots 0 to 7, then rdi 8, rsi 9, rbp 10, rbx 11, rdx 12,
/// rax 13, rcx 14, rsp 15, rip 16, eflags 17, and the packed cs, gs and fs
/// selectors 18); the selectors are the 16-bit fields at bits 0, 16 and 32
/// of that slot; the context is marked full (`0x0010000b`); and the fields
/// that are not filled keep their value.
pub proof fn lemma_fill_reads_registers_by_name(c: CrashContext, before: CpuContextAmd64)
    ensures
        ({
            let f = spec_filled(c, before);
            let g = c.gregs@;
            let packed = g[18] as u64;
            &&& f.r8 == g[0] as u64 && f.r9 == g[1] as u64 && f.r10 == g[2] as u64
            &&& f.r11 == g[3] as u64 && f.r12 == g[4] as u64 && f.r13 == g[5] as u64
            &&& f.r14 == g[6] as u64 && f.r15 == g[7] as u64
            &&& f.rdi == g[8] as u64 && f.rsi == g[9] as u64 && f.rbp == g[10] as u64
            &&& f.rbx == g[11] as u64 && f.rdx == g[12] as u64 && f.rax == g[13] as u64
            &&& f.rcx == g[14] as u64 && f.rsp == g[15] as u64 && f.rip == g[16] as u64
            &&& f.eflags as int == (g[17] as u64) as int % 0x1_0000_0000
            &&& f.cs as int == packed as int % 0x1_0000
            &&& f.gs as int == (packed as int / 0x1_0000) % 0x1_0000
            &&& f.fs as int == (packed as int / 0x1_0000_0000) % 0x1_0000
            &&& f.context_flags == 0x0010_000b
            &&& f.p1_home == before.p1_home && f.p6_home == before.p6_home
            &&& f.ds == before.ds && f.es == before.es && f.ss == before.ss
            &&& f.dr7 == before.dr7 && f.mx_csr == before.mx_csr
            &&& f.vector_register == before.vector_register
        }),
{
    let g = c.gregs@;
    let packed = g[18] as u64;
    let flags = g[17];
    assert((flags as u32) as int == (flags as u64) as int % 0x1_0000_0000) by (bit_vector);
    assert((packed & 0xffffu64) as u16 as int == packed as int % 0x1_0000
        && ((packed >> 16u64) & 0xffffu64) as u16 as int == (packed as int / 0x1_0000) % 0x1_0000
        && ((packed >> 32u64) & 0xffffu64) as u16 as int == (packed as int / 0x1_0000_0000)
        % 0x1_0000) by (bit_vector);
}

} // verus!
