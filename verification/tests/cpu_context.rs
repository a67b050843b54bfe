use crash_handling::context::{amd64, x86};
use minidump_common::format as mdf;
use scroll::Pwrite;

fn amd64_context() -> amd64::CrashContext {
    let mut gregs = [0i64; 23];
    for (i, g) in gregs.iter_mut().enumerate() {
        *g = 0x1000 + i as i64;
    }
    // cs = 0x33, gs = 0x2b, fs = 0x53 packed as [15:0] cs, [31:16] gs, [47:32] fs
    gregs[amd64::REG_CSGSFS] = 0x0053_002b_0033;
    gregs[amd64::REG_RAX] = -1;
    let mut st_space = [0u32; 32];
    for (i, w) in st_space.iter_mut().enumerate() {
        *w = i as u32 + 1;
    }
    let mut xmm_space = [0u32; 64];
    for (i, w) in xmm_space.iter_mut().enumerate() {
        *w = 0xa000_0000 + i as u32;
    }
    amd64::CrashContext {
        gregs,
        float_state: amd64::FloatState {
            cwd: 0x37f,
            swd: 0x20,
            ftw: 0x1ff,
            fop: 7,
            rip: 0x1_2345_6789,
            rdp: 0x2_0000_0010,
            mxcsr: 0x1f80,
            mxcr_mask: 0xffff,
            st_space,
            xmm_space,
        },
        signo: 11,
        code: 1,
        pid: 0,
        addr: 0x7fff_0000_1234,
        tid: 77,
    }
}

#[test]
fn amd64_pointers() {
    let c = amd64_context();
    assert_eq!(c.instruction_pointer(), 0x1000 + amd64::REG_RIP);
    assert_eq!(c.stack_pointer(), 0x1000 + amd64::REG_RSP);
}

#[test]
fn amd64_fill_cpu_context() {
    let c = amd64_context();
    let mut out = amd64::CpuContextAmd64::default();
    out.dr7 = 99;
    c.fill_cpu_context(&mut out);
    assert_eq!(out.context_flags, mdf::ContextFlagsAmd64::CONTEXT_AMD64_FULL.bits());
    assert_eq!(out.context_flags, 0x0010_000b);
    assert_eq!((out.cs, out.gs, out.fs), (0x33, 0x2b, 0x53));
    assert_eq!(out.rax, u64::MAX);
    assert_eq!(out.rip, 0x1000 + amd64::REG_RIP as u64);
    assert_eq!(out.rsp, 0x1000 + amd64::REG_RSP as u64);
    assert_eq!(out.r15, 0x1000 + amd64::REG_R15 as u64);
    assert_eq!(out.eflags, 0x1000 + amd64::REG_EFL as u32);
    assert_eq!(out.dr7, 99, "fields that are not filled keep their value");

    // The float state is the little endian image of an XMM_SAVE_AREA32.
    let fs = &c.float_state;
    let mut float_registers = [0u128; 8];
    for (i, r) in float_registers.iter_mut().enumerate() {
        let w = &fs.st_space[4 * i..4 * i + 4];
        *r = w[0] as u128 | (w[1] as u128) << 32 | (w[2] as u128) << 64 | (w[3] as u128) << 96;
    }
    let mut xmm_registers = [0u128; 16];
    for (i, r) in xmm_registers.iter_mut().enumerate() {
        let w = &fs.xmm_space[4 * i..4 * i + 4];
        *r = w[0] as u128 | (w[1] as u128) << 32 | (w[2] as u128) << 64 | (w[3] as u128) << 96;
    }
    let area = mdf::XMM_SAVE_AREA32 {
        control_word: fs.cwd,
        status_word: fs.swd,
        tag_word: fs.ftw as u8,
        error_opcode: fs.fop,
        error_offset: fs.rip as u32,
        data_offset: fs.rdp as u32,
        mx_csr: fs.mxcsr,
        mx_csr_mask: fs.mxcr_mask,
        float_registers,
        xmm_registers,
        ..Default::default()
    };
    let mut expected = [0u8; 512];
    expected.pwrite_with(area, 0, scroll::Endian::Little).unwrap();
    assert_eq!(out.float_save, expected);
    assert_eq!(&out.float_save[0..6], &[0x7f, 0x03, 0x20, 0x00, 0xff, 0x00]);
    assert_eq!(&out.float_save[8..12], &[0x89, 0x67, 0x45, 0x23]);
    // first x87 register starts at offset 32 with st_space[0] = 1
    assert_eq!(&out.float_save[32..36], &[1, 0, 0, 0]);
    // MXCSR and its mask at 24 and 28, the first XMM register at 160
    assert_eq!(&out.float_save[24..32], &[0x80, 0x1f, 0, 0, 0xff, 0xff, 0, 0]);
    assert_eq!(&out.float_save[160..164], &[0x00, 0x00, 0x00, 0xa0]);
    // selectors and the reserved tail are zero
    assert_eq!(&out.float_save[12..16], &[0, 0, 0, 0]);
    assert!(out.float_save[416..512].iter().all(|b| *b == 0));
}

#[test]
fn pack_u128_little_endian_words() {
    assert_eq!(amd64::pack_u128(1, 2, 3, 4), 1 | 2 << 32 | 3 << 64 | 4 << 96);
    let regs = amd64::x87_registers(&[7u32; 32]);
    assert_eq!(regs[7], amd64::pack_u128(7, 7, 7, 7));
}

#[test]
fn x86_fill_cpu_context() {
    let mut gregs = [0i32; 19];
    for (i, g) in gregs.iter_mut().enumerate() {
        *g = 0x100 + i as i32;
    }
    gregs[x86::REG_EAX] = -2;
    let mut st = [x86::FpReg { significand: [0; 4], exponent: 0 }; 8];
    st[0] = x86::FpReg { significand: [0x1122, 0x3344, 0x5566, 0x7788], exponent: 0x99aa };
    st[7].exponent = 0xbbcc;
    let c = x86::CrashContext {
        gregs,
        float_state: x86::FloatState {
            cw: 1,
            sw: 2,
            tag: 3,
            ipoff: 4,
            cssel: 5,
            dataoff: 6,
            datasel: 7,
            st,
        },
        signo: 4,
        code: 2,
        pid: 0,
        tid: 5,
    };
    assert_eq!(c.instruction_pointer(), 0x100 + x86::REG_EIP);
    assert_eq!(c.stack_pointer(), 0x100 + x86::REG_ESP);
    let mut out = x86::CpuContextX86::default();
    c.fill_cpu_context(&mut out);
    assert_eq!(
        out.context_flags,
        mdf::ContextFlagsX86::CONTEXT_X86_FULL.bits()
            | mdf::ContextFlagsX86::CONTEXT_X86_FLOATING_POINT.bits()
    );
    assert_eq!(out.eax, 0xffff_fffe);
    assert_eq!(out.esp, 0x100 + x86::REG_UESP as u32);
    assert_eq!(out.eip, 0x100 + x86::REG_EIP as u32);
    assert_eq!(out.gs, 0x100);
    assert_eq!(
        (out.float_save.control_word, out.float_save.status_word, out.float_save.tag_word),
        (1, 2, 3)
    );
    assert_eq!(&out.float_save.register_area[0..10], &[0x22, 0x11, 0x44, 0x33, 0x66, 0x55, 0x88, 0x77, 0xaa, 0x99]);
    assert_eq!(&out.float_save.register_area[78..80], &[0xcc, 0xbb]);
}

#[test]
fn amd64_byte_image_round_trip() {
    let c = amd64_context();
    let bytes = c.as_bytes();
    assert_eq!(bytes.len(), amd64::CRASH_CONTEXT_SIZE);
    // rax = -1 is the first register after r8..r15, rdi, rsi, rbp, rbx, rdx
    let rax = 8 * amd64::REG_RAX;
    assert_eq!(&bytes[rax..rax + 8], &[0xff; 8]);
    // the general purpose registers are followed by cwd, little endian
    assert_eq!(&bytes[184..186], &[0x7f, 0x03]);
    // the fault address, then the thread id, close the image
    assert_eq!(&bytes[612..620], &[0x34, 0x12, 0, 0, 0xff, 0x7f, 0, 0]);
    assert_eq!(&bytes[620..624], &[77, 0, 0, 0]);

    let back = amd64::CrashContext::from_bytes(&bytes).expect("right length");
    assert_eq!(back.gregs, c.gregs);
    assert_eq!(back.float_state.cwd, c.float_state.cwd);
    assert_eq!(back.float_state.swd, c.float_state.swd);
    assert_eq!(back.float_state.ftw, c.float_state.ftw);
    assert_eq!(back.float_state.fop, c.float_state.fop);
    assert_eq!(back.float_state.rip, c.float_state.rip);
    assert_eq!(back.float_state.rdp, c.float_state.rdp);
    assert_eq!(back.float_state.mxcsr, c.float_state.mxcsr);
    assert_eq!(back.float_state.mxcr_mask, c.float_state.mxcr_mask);
    assert_eq!(back.float_state.st_space, c.float_state.st_space);
    assert_eq!(back.float_state.xmm_space, c.float_state.xmm_space);
    assert_eq!(back.signo, c.signo);
    assert_eq!(back.code, c.code);
    assert_eq!(back.pid, c.pid);
    assert_eq!(back.addr, c.addr);
    assert_eq!(back.tid, c.tid);
}

#[test]
fn amd64_byte_image_wrong_length() {
    let c = amd64_context();
    let bytes = c.as_bytes();
    assert!(amd64::CrashContext::from_bytes(&bytes[..bytes.len() - 1]).is_none());
    let mut longer = bytes.clone();
    longer.push(0);
    assert!(amd64::CrashContext::from_bytes(&longer).is_none());
    assert!(amd64::CrashContext::from_bytes(&[]).is_none());
}
