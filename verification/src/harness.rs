//! The helpers of the minidump test harness: the crashes it can provoke, the
//! names and paths it derives from them, and what the minidump of each crash
//! must report.
use vstd::prelude::*;
use vstd::string::*;
use minidump::CrashReason;

verus! {

/// The crashes the harness can provoke in a client process.
#[derive(Copy, Clone, Debug, PartialEq, Eq, Structural)]
pub enum Signal {
    Abort,
    Bus,
    Fpe,
    Illegal,
    Segv,
    StackOverflow,
    StackOverflowCThread,
    Trap,
    Purecall,
    InvalidParameter,
    Guard,
}

impl Signal {
    /// The name under which the crash is known on the command line.
    pub open spec fn spec_name(self) -> Seq<char> {
        match self {
            Signal::Abort => "abort"@,
            Signal::Bus => "bus"@,
            Signal::Fpe => "fpe"@,
            Signal::Illegal => "illegal"@,
            Signal::Segv => "segv"@,
            Signal::StackOverflow => "stack-overflow"@,
            Signal::StackOverflowCThread => "stack-overflow-c-thread"@,
            Signal::Trap => "trap"@,
            Signal::Purecall => "purecall"@,
            Signal::InvalidParameter => "invalid-parameter"@,
            Signal::Guard => "guard"@,
        }
    }

    /// The name under which the crash is known on the command line.
    pub fn name(&self) -> (s: &'static str)
        ensures
            s@ == self.spec_name(),
    {
        match self {
            Signal::Abort => "abort",
            Signal::Bus => "bus",
            Signal::Fpe => "fpe",
            Signal::Illegal => "illegal",
            Signal::Segv => "segv",
            Signal::StackOverflow => "stack-overflow",
            Signal::StackOverflowCThread => "stack-overflow-c-thread",
            Signal::Trap => "trap",
            Signal::Purecall => "purecall",
            Signal::InvalidParameter => "invalid-parameter",
            Signal::Guard => "guard",
        }
    }
}

/// The decimal digit character for `d`.
pub open spec fn spec_digit(d: nat) -> char {
    ((48 + d) as u8) as char
}

/// The decimal representation of `n`, most significant digit first, without
/// leading zeros.
pub open spec fn spec_decimal(n: nat) -> Seq<char>
    decreases n,
{
    if n < 10 {
        seq![spec_digit(n)]
    } else {
        spec_decimal(n / 10) + seq![spec_digit(n % 10)]
    }
}

/// The one-character string of a decimal digit.
fn digit_str(d: u32) -> (s: &'static str)
    requires
        d < 10,
    ensures
        s@ == seq![spec_digit(d as nat)],
{
    proof {
        reveal_strlit("0");
        reveal_strlit("1");
        reveal_strlit("2");
        reveal_strlit("3");
        reveal_strlit("4");
        reveal_strlit("5");
        reveal_strlit("6");
        reveal_strlit("7");
        reveal_strlit("8");
        reveal_strlit("9");
    }
    let s = match d {
        0 => "0",
        1 => "1",
        2 => "2",
        3 => "3",
        4 => "4",
        5 => "5",
        6 => "6",
        7 => "7",
        8 => "8",
        _ => "9",
    };
    assert(s@ =~= seq![spec_digit(d as nat)]);
    s
}

/// Appends the decimal representation of `n` to `s`, as `{}` formats it.
pub fn push_decimal(s: &mut String, n: u32)
    ensures
        final(s)@ == old(s)@ + spec_decimal(n as nat),
    decreases n,
{
    if n >= 10 {
        push_decimal(s, n / 10);
    }
    s.append(digit_str(n % 10));
    proof {
        if n >= 10 {
            assert(spec_decimal(n as nat) == spec_decimal((n / 10) as nat) + seq![spec_digit((n % 10) as nat)]);
        }
    }
}

/// The unique identifier of a test run: the crash's name, the run's counter
/// and whether the crash is raised on a separate thread.
pub open spec fn spec_test_id(signal: Signal, counter: u32, use_thread: bool) -> Seq<char> {
    signal.spec_name() + "-"@ + spec_decimal(counter as nat) + "-"@ + (if use_thread {
        "threaded"@
    } else {
        "simple"@
    })
}

/// The unique identifier of a test run, `{signal}-{counter}-{threaded|simple}`,
/// used both for the socket connection and for the minidump file.
pub fn test_id(signal: Signal, counter: u32, use_thread: bool) -> (id: String)
    ensures
        id@ == spec_test_id(signal, counter, use_thread),
{
    let mut id = String::from_str(signal.name());
    id.append("-");
    push_decimal(&mut id, counter);
    id.append("-");
    if use_thread {
        id.append("threaded");
    } else {
        id.append("simple");
    }
    id
}

/// The path of the minidump written for the run `id`, `.dumps/{id}.dmp`.
pub fn make_dump_path(id: &str) -> (p: String)
    ensures
        p@ == ".dumps/"@ + id@ + ".dmp"@,
{
    let mut p = String::from_str(".dumps/");
    p.append(id);
    p.append(".dmp");
    p
}

/// How many runs a threaded test makes at once: a single one on CI, whose
/// machines are slow; four on macOS, which behaves unpredictably when many
/// processes handle exceptions at once; sixteen otherwise.
pub fn threaded_test_count(ci: bool, macos: bool) -> (n: u32)
    ensures
        n == if ci {
            1u32
        } else if macos {
            4u32
        } else {
            16u32
        },
{
    if ci {
        1
    } else if macos {
        4
    } else {
        16
    }
}

/// The operating system a minidump was written on.
#[derive(Copy, Clone, Debug, PartialEq, Eq, Structural)]
pub enum TargetOs {
    Linux,
    Windows,
    MacOs,
    Other,
}

/// The CPU architecture a minidump was written on.
#[derive(Copy, Clone, Debug, PartialEq, Eq, Structural)]
pub enum TargetCpu {
    X86_64,
    X86,
    Arm64,
    Arm,
    Other,
}

/// The crash reason a minidump reports, for the reasons the harness expects
/// (the numbers are those of `minidump_common`'s error code enums).
#[derive(Copy, Clone, Debug, PartialEq, Eq, Structural)]
#[allow(inconsistent_fields)]
pub enum ObservedCrash {
    /// A Linux signal without a more specific reason: the signal number.
    LinuxGeneral { signal: u32 },
    /// `SIGBUS` with its `si_code`.
    LinuxSigbus(u32),
    /// `SIGFPE` with its `si_code`.
    LinuxSigfpe(u32),
    /// `SIGILL` with its `si_code`.
    LinuxSigill(u32),
    /// `SIGSEGV` with its `si_code`.
    LinuxSigsegv(u32),
    /// A Windows exception code.
    WindowsGeneral(u32),
    /// A Windows access violation with its access type.
    WindowsAccessViolation(u64),
    /// A Windows `NTSTATUS` error.
    WindowsNtStatus(u32),
    /// A Mach exception without a more specific reason: the exception type
    /// and code.
    MacGeneral { kind: u32, code: u32 },
    /// `EXC_BAD_ACCESS` with its kernel return code.
    MacBadAccessKern(u32),
    /// `EXC_ARITHMETIC` on x86 with its code.
    MacArithmeticX86(u32),
    /// `EXC_BAD_INSTRUCTION` on ARM with its code.
    MacBadInstructionArm(u32),
    /// `EXC_BAD_INSTRUCTION` on x86 with its code.
    MacBadInstructionX86(u32),
    /// `EXC_BREAKPOINT` on ARM with its code.
    MacBreakpointArm(u32),
    /// `EXC_BREAKPOINT` on x86 with its code.
    MacBreakpointX86(u32),
    /// `EXC_GUARD` with its guard type, packed code and guard identifier.
    MacGuard { kind: u32, code: u64, guard_id: u64 },
    /// Any other reason.
    Other,
}

/// Whether the crash a minidump reports is the one a provoked crash must
/// produce.
#[derive(Copy, Clone, Debug, PartialEq, Eq, Structural)]
pub enum Verdict {
    /// The minidump reports the expected crash.
    Expected,
    /// The minidump reports another crash.
    Unexpected,
    /// The crash cannot be provoked on this system.
    Unsupported,
}

/// `SIGABRT` as `minidump_common` numbers it.
pub const LINUX_SIGABRT: u32 = 6;
/// `SIGTRAP` as `minidump_common` numbers it.
pub const LINUX_SIGTRAP: u32 = 5;
/// `BUS_ADRERR`.
pub const BUS_ADRERR: u32 = 2;
/// `FPE_INTDIV`.
pub const FPE_INTDIV: u32 = 1;
/// `ILL_ILLOPN`.
pub const ILL_ILLOPN: u32 = 2;
/// `SEGV_MAPERR`.
pub const SEGV_MAPERR: u32 = 1;
/// `SEGV_ACCERR`.
pub const SEGV_ACCERR: u32 = 2;
/// `EXCEPTION_INT_DIVIDE_BY_ZERO`.
pub const WIN_INT_DIVIDE_BY_ZERO: u32 = 0xc000_0094;
/// `EXCEPTION_ILLEGAL_INSTRUCTION`.
pub const WIN_ILLEGAL_INSTRUCTION: u32 = 0xc000_001d;
/// `EXCEPTION_STACK_OVERFLOW`.
pub const WIN_STACK_OVERFLOW: u32 = 0xc000_00fd;
/// `EXCEPTION_BREAKPOINT`.
pub const WIN_BREAKPOINT: u32 = 0x8000_0003;
/// `EXCEPTION_NONCONTINUABLE_EXCEPTION`, the code of a pure virtual call.
pub const WIN_NONCONTINUABLE_EXCEPTION: u32 = 0xc000_0025;
/// `STATUS_INVALID_PARAMETER`, the code of an invalid parameter.
pub const WIN_STATUS_INVALID_PARAMETER: u32 = 0xc000_000d;
/// The `WRITE` access type of an access violation.
pub const WIN_ACCESS_WRITE: u64 = 1;
/// `EXC_ARITHMETIC`.
pub const MAC_EXC_ARITHMETIC: u32 = 3;
/// `EXC_SOFTWARE`.
pub const MAC_EXC_SOFTWARE: u32 = 5;
/// `EXC_SOFT_SIGNAL`, the code of an `EXC_SOFTWARE` caused by a Unix signal.
pub const MAC_EXC_SOFT_SIGNAL: u32 = 0x10003;
/// `KERN_INVALID_ADDRESS`.
pub const KERN_INVALID_ADDRESS: u32 = 1;
/// `KERN_PROTECTION_FAILURE`.
pub const KERN_PROTECTION_FAILURE: u32 = 2;
/// `KERN_MEMORY_ERROR`.
pub const KERN_MEMORY_ERROR: u32 = 10;
/// `EXC_I386_DIV`.
pub const EXC_I386_DIV: u32 = 1;
/// `EXC_I386_INVOP`.
pub const EXC_I386_INVOP: u32 = 1;
/// `EXC_I386_BPT`.
pub const EXC_I386_BPT: u32 = 2;
/// `EXC_ARM_UNDEFINED`.
pub const EXC_ARM_UNDEFINED: u32 = 1;
/// `EXC_ARM_BREAKPOINT`.
pub const EXC_ARM_BREAKPOINT: u32 = 1;
/// `GUARD_TYPE_FD`.
pub const GUARD_TYPE_FD: u32 = 2;
/// `GUARD_CLOSE`, the flavor of closing a guarded file descriptor.
pub const GUARD_CLOSE: u64 = 1;

/// Whether the crash reported for `signal` on a Linux system is the expected
/// one.
pub open spec fn spec_linux_expected(signal: Signal, observed: ObservedCrash) -> Verdict {
    let ok = match signal {
        Signal::Abort => observed matches ObservedCrash::LinuxGeneral { signal } && signal
            == LINUX_SIGABRT,
        Signal::Bus => observed == ObservedCrash::LinuxSigbus(BUS_ADRERR),
        Signal::Fpe => observed == ObservedCrash::LinuxSigfpe(FPE_INTDIV),
        Signal::Illegal => observed == ObservedCrash::LinuxSigill(ILL_ILLOPN),
        Signal::Segv => observed == ObservedCrash::LinuxSigsegv(SEGV_MAPERR),
        Signal::StackOverflow | Signal::StackOverflowCThread => observed
            == ObservedCrash::LinuxSigsegv(SEGV_ACCERR) || observed == ObservedCrash::LinuxSigsegv(
            SEGV_MAPERR,
        ),
        Signal::Trap => observed matches ObservedCrash::LinuxGeneral { signal } && signal
            == LINUX_SIGTRAP,
        _ => false,
    };
    match signal {
        Signal::Purecall | Signal::InvalidParameter | Signal::Guard => Verdict::Unsupported,
        _ => if ok {
            Verdict::Expected
        } else {
            Verdict::Unexpected
        },
    }
}

/// Whether the crash reported for `signal` on a Windows system is the
/// expected one; a segfault must also have happened at `segfault_address`.
pub open spec fn spec_windows_expected(
    signal: Signal,
    observed: ObservedCrash,
    crash_address: u64,
    segfault_address: u64,
) -> Verdict {
    let ok = match signal {
        Signal::Fpe => observed == ObservedCrash::WindowsGeneral(WIN_INT_DIVIDE_BY_ZERO),
        Signal::Illegal => observed == ObservedCrash::WindowsGeneral(WIN_ILLEGAL_INSTRUCTION),
        Signal::Segv => observed == ObservedCrash::WindowsAccessViolation(WIN_ACCESS_WRITE)
            && crash_address == segfault_address,
        Signal::StackOverflow | Signal::StackOverflowCThread => observed
            == ObservedCrash::WindowsGeneral(WIN_STACK_OVERFLOW),
        Signal::Trap => observed == ObservedCrash::WindowsGeneral(WIN_BREAKPOINT),
        Signal::Purecall => observed == ObservedCrash::WindowsGeneral(
            WIN_NONCONTINUABLE_EXCEPTION,
        ),
        Signal::InvalidParameter => observed == ObservedCrash::WindowsNtStatus(
            WIN_STATUS_INVALID_PARAMETER,
        ),
        _ => false,
    };
    match signal {
        Signal::Abort | Signal::Bus | Signal::Guard => Verdict::Unsupported,
        _ => if ok {
            Verdict::Expected
        } else {
            Verdict::Unexpected
        },
    }
}

/// Whether the crash reported for `signal` on a macOS system with the given
/// CPU is the expected one; a segfault must also have happened at
/// `segfault_address`, and a guard exception must concern a file descriptor
/// closed while guarded by `guard_id`.
pub open spec fn spec_mac_expected(
    cpu: TargetCpu,
    signal: Signal,
    observed: ObservedCrash,
    crash_address: u64,
    segfault_address: u64,
    guard_id: u64,
) -> Verdict {
    let arm = cpu == TargetCpu::Arm64;
    let x86 = cpu == TargetCpu::X86_64;
    if signal == Signal::Purecall || signal == Signal::InvalidParameter {
        Verdict::Unsupported
    } else if (signal == Signal::Fpe || signal == Signal::Illegal || signal == Signal::Trap) && !arm
        && !x86 {
        Verdict::Unsupported
    } else {
        {
            let ok = match signal {
                Signal::Abort => observed == ObservedCrash::MacGeneral {
                    kind: MAC_EXC_SOFTWARE,
                    code: MAC_EXC_SOFT_SIGNAL,
                },
                Signal::Bus => observed == ObservedCrash::MacBadAccessKern(KERN_MEMORY_ERROR),
                Signal::Fpe => if arm {
                    observed == ObservedCrash::MacGeneral { kind: MAC_EXC_ARITHMETIC, code: 0 }
                } else {
                    observed == ObservedCrash::MacArithmeticX86(EXC_I386_DIV)
                },
                Signal::Illegal => if arm {
                    observed == ObservedCrash::MacBadInstructionArm(EXC_ARM_UNDEFINED)
                } else {
                    observed == ObservedCrash::MacBadInstructionX86(EXC_I386_INVOP)
                },
                Signal::Segv => observed == ObservedCrash::MacBadAccessKern(KERN_INVALID_ADDRESS)
                    && crash_address == segfault_address,
                Signal::StackOverflow | Signal::StackOverflowCThread => observed
                    == ObservedCrash::MacBadAccessKern(KERN_PROTECTION_FAILURE),
                Signal::Trap => if arm {
                    observed == ObservedCrash::MacBreakpointArm(EXC_ARM_BREAKPOINT)
                } else {
                    observed == ObservedCrash::MacBreakpointX86(EXC_I386_BPT)
                },
                _ => observed matches ObservedCrash::MacGuard { kind, code, guard_id: id } && kind
                    == GUARD_TYPE_FD && id == guard_id && (code >> 61u64) & 7u64 == GUARD_TYPE_FD
                    && (code >> 32u64) & 0x1fff_ffffu64 == GUARD_CLOSE,
            };
            if ok {
                Verdict::Expected
            } else {
                Verdict::Unexpected
            }
        }
    }
}

/// Whether the crash a minidump reports is the one that provoking `signal`
/// must produce on the given system.
pub open spec fn spec_expected_crash(
    os: TargetOs,
    cpu: TargetCpu,
    signal: Signal,
    observed: ObservedCrash,
    crash_address: u64,
    segfault_address: u64,
    guard_id: u64,
) -> Verdict {
    match os {
        TargetOs::Linux => spec_linux_expected(signal, observed),
        TargetOs::Windows => spec_windows_expected(
            signal,
            observed,
            crash_address,
            segfault_address,
        ),
        TargetOs::MacOs => spec_mac_expected(
            cpu,
            signal,
            observed,
            crash_address,
            segfault_address,
            guard_id,
        ),
        TargetOs::Other => Verdict::Unsupported,
    }
}

/// Judges the crash a minidump reports (`observed`, at `crash_address`)
/// against the crash that provoking `signal` must produce on the given
/// system. `segfault_address` and `guard_id` are the address a segfault is
/// provoked at and the identifier a guarded file descriptor is guarded with.
pub fn judge_crash(
    os: TargetOs,
    cpu: TargetCpu,
    signal: Signal,
    observed: ObservedCrash,
    crash_address: u64,
    segfault_address: u64,
    guard_id: u64,
) -> (v: Verdict)
    ensures
        v == spec_expected_crash(
            os,
            cpu,
            signal,
            observed,
            crash_address,
            segfault_address,
            guard_id,
        ),
{
    match os {
        TargetOs::Linux => {
            let ok = match signal {
                Signal::Abort => match observed {
                    ObservedCrash::LinuxGeneral { signal } => signal == LINUX_SIGABRT,
                    _ => false,
                },
                Signal::Bus => observed == ObservedCrash::LinuxSigbus(BUS_ADRERR),
                Signal::Fpe => observed == ObservedCrash::LinuxSigfpe(FPE_INTDIV),
                Signal::Illegal => observed == ObservedCrash::LinuxSigill(ILL_ILLOPN),
                Signal::Segv => observed == ObservedCrash::LinuxSigsegv(SEGV_MAPERR),
                Signal::StackOverflow | Signal::StackOverflowCThread => observed
                    == ObservedCrash::LinuxSigsegv(SEGV_ACCERR) || observed
                    == ObservedCrash::LinuxSigsegv(SEGV_MAPERR),
                Signal::Trap => match observed {
                    ObservedCrash::LinuxGeneral { signal } => signal == LINUX_SIGTRAP,
                    _ => false,
                },
                _ => false,
            };
            match signal {
                Signal::Purecall | Signal::InvalidParameter | Signal::Guard => Verdict::Unsupported,
                _ => if ok {
                    Verdict::Expected
                } else {
                    Verdict::Unexpected
                },
            }
        },
        TargetOs::Windows => {
            let ok = match signal {
                Signal::Fpe => observed == ObservedCrash::WindowsGeneral(WIN_INT_DIVIDE_BY_ZERO),
                Signal::Illegal => observed == ObservedCrash::WindowsGeneral(
                    WIN_ILLEGAL_INSTRUCTION,
                ),
                Signal::Segv => observed == ObservedCrash::WindowsAccessViolation(WIN_ACCESS_WRITE)
                    && crash_address == segfault_address,
                Signal::StackOverflow | Signal::StackOverflowCThread => observed
                    == ObservedCrash::WindowsGeneral(WIN_STACK_OVERFLOW),
                Signal::Trap => observed == ObservedCrash::WindowsGeneral(WIN_BREAKPOINT),
                Signal::Purecall => observed == ObservedCrash::WindowsGeneral(
                    WIN_NONCONTINUABLE_EXCEPTION,
                ),
                Signal::InvalidParameter => observed == ObservedCrash::WindowsNtStatus(
                    WIN_STATUS_INVALID_PARAMETER,
                ),
                _ => false,
            };
            match signal {
                Signal::Abort | Signal::Bus | Signal::Guard => Verdict::Unsupported,
                _ => if ok {
                    Verdict::Expected
                } else {
                    Verdict::Unexpected
                },
            }
        },
        TargetOs::MacOs => judge_mac_crash(
            cpu,
            signal,
            observed,
            crash_address,
            segfault_address,
            guard_id,
        ),
        TargetOs::Other => Verdict::Unsupported,
    }
}

/// Judges a crash reported on macOS.
fn judge_mac_crash(
    cpu: TargetCpu,
    signal: Signal,
    observed: ObservedCrash,
    crash_address: u64,
    segfault_address: u64,
    guard_id: u64,
) -> (v: Verdict)
    ensures
        v == spec_mac_expected(cpu, signal, observed, crash_address, segfault_address, guard_id),
{
    let arm = cpu == TargetCpu::Arm64;
    let x86 = cpu == TargetCpu::X86_64;
    match signal {
        Signal::Purecall | Signal::InvalidParameter => {
            return Verdict::Unsupported;
        },
        Signal::Fpe | Signal::Illegal | Signal::Trap => {
            if !arm && !x86 {
                return Verdict::Unsupported;
            }
        },
        _ => {},
    }
    let ok = match signal {
        Signal::Abort => observed == ObservedCrash::MacGeneral {
            kind: MAC_EXC_SOFTWARE,
            code: MAC_EXC_SOFT_SIGNAL,
        },
        Signal::Bus => observed == ObservedCrash::MacBadAccessKern(KERN_MEMORY_ERROR),
        Signal::Fpe => if arm {
            observed == ObservedCrash::MacGeneral { kind: MAC_EXC_ARITHMETIC, code: 0 }
        } else {
            observed == ObservedCrash::MacArithmeticX86(EXC_I386_DIV)
        },
        Signal::Illegal => if arm {
            observed == ObservedCrash::MacBadInstructionArm(EXC_ARM_UNDEFINED)
        } else {
            observed == ObservedCrash::MacBadInstructionX86(EXC_I386_INVOP)
        },
        Signal::Segv => observed == ObservedCrash::MacBadAccessKern(KERN_INVALID_ADDRESS)
            && crash_address == segfault_address,
        Signal::StackOverflow | Signal::StackOverflowCThread => observed
            == ObservedCrash::MacBadAccessKern(KERN_PROTECTION_FAILURE),
        Signal::Trap => if arm {
            observed == ObservedCrash::MacBreakpointArm(EXC_ARM_BREAKPOINT)
        } else {
            observed == ObservedCrash::MacBreakpointX86(EXC_I386_BPT)
        },
        _ => match observed {
            ObservedCrash::MacGuard { kind, code, guard_id: id } => kind == GUARD_TYPE_FD && id
                == guard_id && (code >> 61u64) & 7u64 == GUARD_TYPE_FD as u64 && (code >> 32u64)
                & 0x1fff_ffffu64 == GUARD_CLOSE,
            _ => false,
        },
    };
    if ok {
        Verdict::Expected
    } else {
        Verdict::Unexpected
    }
}

/// The command line arguments the crash client is run with: the run's
/// identifier and crash, whether to crash on a separate thread, and whether
/// to wait for a debugger first.
pub fn client_args(id: &str, signal: Signal, use_thread: bool, wait_for_debugger: bool) -> (args:
    Vec<String>)
    ensures
        args@.len() == 4 + (if use_thread {
            1int
        } else {
            0int
        }) + (if wait_for_debugger {
            1int
        } else {
            0int
        }),
        args@[0]@ == "--id"@,
        args@[1]@ == id@,
        args@[2]@ == "--signal"@,
        args@[3]@ == signal.spec_name(),
        use_thread ==> args@[4]@ == "--use-thread"@,
        wait_for_debugger ==> args@[args@.len() - 1]@ == "--wait-on-debugger"@,
{
    let mut args: Vec<String> = Vec::new();
    args.push(String::from_str("--id"));
    args.push(String::from_str(id));
    args.push(String::from_str("--signal"));
    args.push(String::from_str(signal.name()));
    if use_thread {
        args.push(String::from_str("--use-thread"));
    }
    if wait_for_debugger {
        args.push(String::from_str("--wait-on-debugger"));
    }
    args
}

/// The path components of the crash client, given those of the running
/// executable: the executable's name is dropped, then a trailing `deps`
/// directory (where test executables live), and `crash-client` is added,
/// with the `.exe` extension on Windows.
pub open spec fn spec_client_path(exe: Seq<Seq<char>>, windows: bool) -> Seq<Seq<char>> {
    let dir = if exe.len() > 0 {
        exe.drop_last()
    } else {
        exe
    };
    let dir = if dir.len() > 0 && dir.last() == "deps"@ {
        dir.drop_last()
    } else {
        dir
    };
    dir.push(
        if windows {
            "crash-client.exe"@
        } else {
            "crash-client"@
        },
    )
}

/// The views of a run of strings.
pub open spec fn string_views(v: Seq<String>) -> Seq<Seq<char>> {
    v.map_values(|s: String| s@)
}

/// The path components of the crash client, given those of the running
/// executable.
pub fn client_path(exe: Vec<String>, windows: bool) -> (p: Vec<String>)
    ensures
        string_views(p@) == spec_client_path(string_views(exe@), windows),
{
    let ghost e = string_views(exe@);
    let mut dir = exe;
    if dir.len() > 0 {
        dir.pop();
    }
    assert(string_views(dir@) =~= (if e.len() > 0 {
        e.drop_last()
    } else {
        e
    }));
    let ghost d = string_views(dir@);
    if dir.len() > 0 {
        let deps = String::from_str("deps");
        let last = dir.len() - 1;
        if dir[last] == deps {
            dir.pop();
        }
    }
    assert(string_views(dir@) =~= (if d.len() > 0 && d.last() == "deps"@ {
        d.drop_last()
    } else {
        d
    }));
    let ghost d2 = string_views(dir@);
    if windows {
        dir.push(String::from_str("crash-client.exe"));
    } else {
        dir.push(String::from_str("crash-client"));
    }
    assert(string_views(dir@) =~= d2.push(
        if windows {
            "crash-client.exe"@
        } else {
            "crash-client"@
        },
    ));
    dir
}

/// Whether the crash client ended as a crash must end it: on Unix it was
/// terminated by a signal, so it has no exit code; elsewhere any end is
/// accepted.
pub fn client_end_expected(exit_code: Option<i32>, unix: bool) -> (b: bool)
    ensures
        b == (!unix || exit_code is None),
{
    !unix || exit_code.is_none()
}

/// `minidump::CrashReason`, the crash reason the `minidump` crate derives
/// from an exception stream.
#[verifier::external_type_specification]
#[verifier::external_body]
pub struct ExCrashReason(CrashReason);

/// `PlatformId` of `minidump_common` for `Linux`.
pub const PLATFORM_LINUX: u32 = 0x8201;
/// `PlatformId` of `minidump_common` for `VER_PLATFORM_WIN32_NT`.
pub const PLATFORM_WIN32_NT: u32 = 3;
/// `PlatformId` of `minidump_common` for `MacOs`.
pub const PLATFORM_MACOS: u32 = 0x8101;
/// `PlatformId` of `minidump_common` for a generic `Unix`.
pub const PLATFORM_UNIX: u32 = 0x8000;
/// `PROCESSOR_ARCHITECTURE_INTEL`.
pub const ARCH_INTEL: u16 = 0;
/// `PROCESSOR_ARCHITECTURE_ARM`.
pub const ARCH_ARM: u16 = 5;
/// `PROCESSOR_ARCHITECTURE_AMD64`.
pub const ARCH_AMD64: u16 = 9;
/// `PROCESSOR_ARCHITECTURE_ARM64`.
pub const ARCH_ARM64: u16 = 12;
/// `PROCESSOR_ARCHITECTURE_UNKNOWN`.
pub const ARCH_UNKNOWN: u16 = 0xffff;

/// The platform id a minidump written on `os` carries.
pub open spec fn spec_platform_id(os: TargetOs) -> u32 {
    match os {
        TargetOs::Linux => PLATFORM_LINUX,
        TargetOs::Windows => PLATFORM_WIN32_NT,
        TargetOs::MacOs => PLATFORM_MACOS,
        TargetOs::Other => PLATFORM_UNIX,
    }
}

/// The platform id a minidump written on `os` carries.
pub fn platform_id(os: TargetOs) -> (id: u32)
    ensures
        id == spec_platform_id(os),
{
    match os {
        TargetOs::Linux => PLATFORM_LINUX,
        TargetOs::Windows => PLATFORM_WIN32_NT,
        TargetOs::MacOs => PLATFORM_MACOS,
        TargetOs::Other => PLATFORM_UNIX,
    }
}

/// The processor architecture a minidump written on `cpu` carries.
pub open spec fn spec_processor_architecture(cpu: TargetCpu) -> u16 {
    match cpu {
        TargetCpu::X86_64 => ARCH_AMD64,
        TargetCpu::X86 => ARCH_INTEL,
        TargetCpu::Arm64 => ARCH_ARM64,
        TargetCpu::Arm => ARCH_ARM,
        TargetCpu::Other => ARCH_UNKNOWN,
    }
}

/// The processor architecture a minidump written on `cpu` carries.
pub fn processor_architecture(cpu: TargetCpu) -> (arch: u16)
    ensures
        arch == spec_processor_architecture(cpu),
{
    match cpu {
        TargetCpu::X86_64 => ARCH_AMD64,
        TargetCpu::X86 => ARCH_INTEL,
        TargetCpu::Arm64 => ARCH_ARM64,
        TargetCpu::Arm => ARCH_ARM,
        TargetCpu::Other => ARCH_UNKNOWN,
    }
}

/// What the `minidump` crate reads from the bytes `md` of a minidump: the
/// crash reason and crash address of its exception stream, interpreted for
/// the system with the given platform id and processor architecture; `None`
/// when the bytes hold no minidump or no exception stream.
pub uninterp spec fn minidump_crash(md: Seq<u8>, platform_id: u32, arch: u16) -> Option<(CrashReason, u64)>;

/// Parses `md_buf` with `minidump::Minidump::read`, takes its
/// `MinidumpException` stream with `get_stream`, and asks it
/// `get_crash_reason` and `get_crash_address` for the `Os` of
/// `Os::from_platform_id(platform_id)` and the `Cpu` of
/// `Cpu::from_processor_architecture(arch)`. All of these only compute on
/// their arguments, so the result is named by [`minidump_crash`]; a parse
/// error or a missing stream gives `None`.
#[verifier::external_body]
fn read_minidump_crash(md_buf: &[u8], platform_id: u32, arch: u16) -> (r: Option<(CrashReason, u64)>)
    ensures
        r == minidump_crash(md_buf@, platform_id, arch),
{
    let md = minidump::Minidump::read(md_buf).ok()?;
    let exc: minidump::MinidumpException<'_> = md.get_stream().ok()?;
    let os = minidump::system_info::Os::from_platform_id(platform_id);
    let cpu = minidump::system_info::Cpu::from_processor_architecture(arch);
    Some((exc.get_crash_reason(os, cpu), exc.get_crash_address(os, cpu)))
}

/// The Linux reasons of `CrashReason`, as an [`ObservedCrash`]; `None` for
/// any other reason.
pub uninterp spec fn linux_reason(reason: CrashReason) -> Option<ObservedCrash>;

/// The Windows reasons of `CrashReason`, as an [`ObservedCrash`]; `None`
/// for any other reason.
pub uninterp spec fn windows_reason(reason: CrashReason) -> Option<ObservedCrash>;

/// The macOS reasons of `CrashReason`, as an [`ObservedCrash`]; `None` for
/// any other reason.
pub uninterp spec fn mac_reason(reason: CrashReason) -> Option<ObservedCrash>;

/// Converts the Linux variants of `minidump::CrashReason` to the variants of
/// the same name, each error code enum of `minidump_common` taken by its
/// number; `None` for any other variant.
#[verifier::external_body]
fn linux_crash(reason: &CrashReason) -> (o: Option<ObservedCrash>)
    ensures
        o == linux_reason(*reason),
{
    match *reason {
        CrashReason::LinuxGeneral(s, _) => Some(ObservedCrash::LinuxGeneral { signal: s as u32 }),
        CrashReason::LinuxSigbus(k) => Some(ObservedCrash::LinuxSigbus(k as u32)),
        CrashReason::LinuxSigfpe(k) => Some(ObservedCrash::LinuxSigfpe(k as u32)),
        CrashReason::LinuxSigill(k) => Some(ObservedCrash::LinuxSigill(k as u32)),
        CrashReason::LinuxSigsegv(k) => Some(ObservedCrash::LinuxSigsegv(k as u32)),
        _ => None,
    }
}

/// Converts the Windows variants of `minidump::CrashReason` that the harness
/// expects to the variants of the same name, each error code enum of
/// `minidump_common` taken by its number; `None` for any other variant.
#[verifier::external_body]
fn windows_crash(reason: &CrashReason) -> (o: Option<ObservedCrash>)
    ensures
        o == windows_reason(*reason),
{
    match *reason {
        CrashReason::WindowsGeneral(c) => Some(ObservedCrash::WindowsGeneral(c as u32)),
        CrashReason::WindowsAccessViolation(t) => Some(ObservedCrash::WindowsAccessViolation(t as u64)),
        CrashReason::WindowsNtStatus(s) => Some(ObservedCrash::WindowsNtStatus(s as u32)),
        _ => None,
    }
}

/// Converts the macOS variants of `minidump::CrashReason` that the harness
/// expects to the variants of the same name, each error code enum of
/// `minidump_common` taken by its number; `None` for any other variant.
#[verifier::external_body]
fn mac_crash(reason: &CrashReason) -> (o: Option<ObservedCrash>)
    ensures
        o == mac_reason(*reason),
{
    match *reason {
        CrashReason::MacGeneral(k, c) => Some(ObservedCrash::MacGeneral { kind: k as u32, code: c }),
        CrashReason::MacBadAccessKern(k) => Some(ObservedCrash::MacBadAccessKern(k as u32)),
        CrashReason::MacArithmeticX86(k) => Some(ObservedCrash::MacArithmeticX86(k as u32)),
        CrashReason::MacBadInstructionArm(k) => Some(ObservedCrash::MacBadInstructionArm(k as u32)),
        CrashReason::MacBadInstructionX86(k) => Some(ObservedCrash::MacBadInstructionX86(k as u32)),
        CrashReason::MacBreakpointArm(k) => Some(ObservedCrash::MacBreakpointArm(k as u32)),
        CrashReason::MacBreakpointX86(k) => Some(ObservedCrash::MacBreakpointX86(k as u32)),
        CrashReason::MacGuard(k, c, id) => Some(ObservedCrash::MacGuard { kind: k as u32, code: c, guard_id: id }),
        _ => None,
    }
}

/// The crash a `CrashReason` reports, among those the harness tells apart.
pub open spec fn spec_observed(reason: CrashReason) -> ObservedCrash {
    match linux_reason(reason) {
        Some(o) => o,
        None => match windows_reason(reason) {
            Some(o) => o,
            None => match mac_reason(reason) {
                Some(o) => o,
                None => ObservedCrash::Other,
            },
        },
    }
}

/// The crash a `CrashReason` reports, among those the harness tells apart:
/// its Linux, Windows or macOS reason, or [`ObservedCrash::Other`].
pub fn observed_crash(reason: &CrashReason) -> (o: ObservedCrash)
    ensures
        o == spec_observed(*reason),
{
    match linux_crash(reason) {
        Some(o) => o,
        None => match windows_crash(reason) {
            Some(o) => o,
            None => match mac_crash(reason) {
                Some(o) => o,
                None => ObservedCrash::Other,
            },
        },
    }
}

/// The verdict on the minidump `md_buf` written on the given system for a
/// provoked `signal`: `None` when the bytes hold no minidump with an
/// exception stream, else the judgement of [`judge_crash`] on the crash
/// reason and address that the minidump reports.
pub fn check_minidump(
    md_buf: &[u8],
    signal: Signal,
    os: TargetOs,
    cpu: TargetCpu,
    segfault_address: u64,
    guard_id: u64,
) -> (v: Option<Verdict>)
    ensures
        v == match minidump_crash(md_buf@, spec_platform_id(os), spec_processor_architecture(cpu)) {
            Some((reason, address)) => Some(
                spec_expected_crash(
                    os,
                    cpu,
                    signal,
                    spec_observed(reason),
                    address,
                    segfault_address,
                    guard_id,
                ),
            ),
            None => None,
        },
{
    match read_minidump_crash(md_buf, platform_id(os), processor_architecture(cpu)) {
        Some((reason, address)) => Some(
            judge_crash(
                os,
                cpu,
                signal,
                observed_crash(&reason),
                address,
                segfault_address,
                guard_id,
            ),
        ),
        None => None,
    }
}

/// On Windows each provoked crash is expected to be reported with its fixed
/// exception code, and with nothing else: an integer divide by zero as
/// `EXCEPTION_INT_DIVIDE_BY_ZERO` (`0xC0000094`), an illegal instruction as
/// `EXCEPTION_ILLEGAL_INSTRUCTION` (`0xC000001D`), a segfault as a write
/// access violation at the segfault address, a stack overflow as
/// `EXCEPTION_STACK_OVERFLOW` (`0xC00000FD`), a trap as
/// `EXCEPTION_BREAKPOINT` (`0x80000003`), a pure virtual call as
/// `0xC0000025` and an invalid parameter as the NTSTATUS `0xC000000D`. Any
/// other report is unexpected; aborts, bus errors and guard exceptions
/// cannot be provoked there.
pub proof fn lemma_windows_expected_codes(
    cpu: TargetCpu,
    observed: ObservedCrash,
    address: u64,
    segfault_address: u64,
    guard_id: u64,
)
    ensures
        ({
            let v = |s: Signal| spec_expected_crash(TargetOs::Windows, cpu, s, observed, address, segfault_address, guard_id);
            &&& (v(Signal::Fpe) == Verdict::Expected) <==> observed == ObservedCrash::WindowsGeneral(0xC000_0094)
            &&& (v(Signal::Illegal) == Verdict::Expected) <==> observed == ObservedCrash::WindowsGeneral(0xC000_001D)
            &&& (v(Signal::Segv) == Verdict::Expected) <==> (observed == ObservedCrash::WindowsAccessViolation(1) && address == segfault_address)
            &&& (v(Signal::StackOverflow) == Verdict::Expected) <==> observed == ObservedCrash::WindowsGeneral(0xC000_00FD)
            &&& (v(Signal::StackOverflowCThread) == Verdict::Expected) <==> observed == ObservedCrash::WindowsGeneral(0xC000_00FD)
            &&& (v(Signal::Trap) == Verdict::Expected) <==> observed == ObservedCrash::WindowsGeneral(0x8000_0003)
            &&& (v(Signal::Purecall) == Verdict::Expected) <==> observed == ObservedCrash::WindowsGeneral(0xC000_0025)
            &&& (v(Signal::InvalidParameter) == Verdict::Expected) <==> observed == ObservedCrash::WindowsNtStatus(0xC000_000D)
            &&& v(Signal::Abort) == Verdict::Unsupported && v(Signal::Bus) == Verdict::Unsupported
            &&& v(Signal::Guard) == Verdict::Unsupported
            &&& forall|s: Signal| s != Signal::Abort && s != Signal::Bus && s != Signal::Guard ==> #[trigger] v(s) != Verdict::Unsupported
        }),
{
}

/// On Linux each provoked crash is expected to be reported with its fixed
/// signal and code, and with nothing else: an abort as `SIGABRT` (6), a bus
/// error as `SIGBUS`/`BUS_ADRERR` (2), an integer divide by zero as
/// `SIGFPE`/`FPE_INTDIV` (1), an illegal instruction as `SIGILL`/
/// `ILL_ILLOPN` (2), a segfault as `SIGSEGV`/`SEGV_MAPERR` (1), a stack
/// overflow as `SIGSEGV` with `SEGV_ACCERR` (2) or `SEGV_MAPERR` (1), and a
/// trap as `SIGTRAP` (5). Pure virtual calls, invalid parameters and guard
/// exceptions cannot be provoked there.
pub proof fn lemma_linux_expected_codes(
    cpu: TargetCpu,
    observed: ObservedCrash,
    address: u64,
    segfault_address: u64,
    guard_id: u64,
)
    ensures
        ({
            let v = |s: Signal| spec_expected_crash(TargetOs::Linux, cpu, s, observed, address, segfault_address, guard_id);
            &&& (v(Signal::Abort) == Verdict::Expected) <==> (observed matches ObservedCrash::LinuxGeneral { signal } && signal == 6)
            &&& (v(Signal::Bus) == Verdict::Expected) <==> observed == ObservedCrash::LinuxSigbus(2)
            &&& (v(Signal::Fpe) == Verdict::Expected) <==> observed == ObservedCrash::LinuxSigfpe(1)
            &&& (v(Signal::Illegal) == Verdict::Expected) <==> observed == ObservedCrash::LinuxSigill(2)
            &&& (v(Signal::Segv) == Verdict::Expected) <==> observed == ObservedCrash::LinuxSigsegv(1)
            &&& (v(Signal::StackOverflow) == Verdict::Expected) <==> (observed == ObservedCrash::LinuxSigsegv(2) || observed == ObservedCrash::LinuxSigsegv(1))
            &&& (v(Signal::StackOverflowCThread) == Verdict::Expected) <==> (observed == ObservedCrash::LinuxSigsegv(2) || observed == ObservedCrash::LinuxSigsegv(1))
            &&& (v(Signal::Trap) == Verdict::Expected) <==> (observed matches ObservedCrash::LinuxGeneral { signal } && signal == 5)
            &&& v(Signal::Purecall) == Verdict::Unsupported && v(Signal::InvalidParameter) == Verdict::Unsupported
            &&& v(Signal::Guard) == Verdict::Unsupported
            &&& forall|s: Signal| s != Signal::Purecall && s != Signal::InvalidParameter && s != Signal::Guard ==> #[trigger] v(s) != Verdict::Unsupported
        }),
{
}

/// On macOS each provoked crash is expected to be reported with its fixed
/// Mach exception, and with nothing else: an abort as `EXC_SOFTWARE` (5)
/// with `EXC_SOFT_SIGNAL` (`0x10003`), a bus error as `EXC_BAD_ACCESS` with
/// `KERN_MEMORY_ERROR` (10), a segfault as `KERN_INVALID_ADDRESS` (1) at the
/// segfault address, a stack overflow as `KERN_PROTECTION_FAILURE` (2); on
/// arm64 an integer divide by zero as `EXC_ARITHMETIC` (3) with code 0, an
/// illegal instruction as `EXC_ARM_UNDEFINED` (1) and a trap as
/// `EXC_ARM_BREAKPOINT` (1); on x86_64 as `EXC_I386_DIV` (1),
/// `EXC_I386_INVOP` (1) and `EXC_I386_BPT` (2); and a guard exception as an
/// `EXC_GUARD` of type `GUARD_TYPE_FD` (2) whose code holds that type in its
/// top three bits and the flavor `GUARD_CLOSE` (1) in the 29 bits below, with
/// the expected identifier. Pure virtual calls and invalid parameters, and
/// the CPU-specific crashes on other CPUs, cannot be provoked there.
pub proof fn lemma_mac_expected_codes(
    cpu: TargetCpu,
    observed: ObservedCrash,
    address: u64,
    segfault_address: u64,
    guard_id: u64,
)
    ensures
        ({
            let v = |s: Signal| spec_expected_crash(TargetOs::MacOs, cpu, s, observed, address, segfault_address, guard_id);
            &&& (v(Signal::Abort) == Verdict::Expected) <==> observed == (ObservedCrash::MacGeneral { kind: 5, code: 0x10003 })
            &&& (v(Signal::Bus) == Verdict::Expected) <==> observed == ObservedCrash::MacBadAccessKern(10)
            &&& (v(Signal::Segv) == Verdict::Expected) <==> (observed == ObservedCrash::MacBadAccessKern(1) && address == segfault_address)
            &&& (v(Signal::StackOverflow) == Verdict::Expected) <==> observed == ObservedCrash::MacBadAccessKern(2)
            &&& (v(Signal::StackOverflowCThread) == Verdict::Expected) <==> observed == ObservedCrash::MacBadAccessKern(2)
            &&& cpu == TargetCpu::Arm64 ==> {
                &&& (v(Signal::Fpe) == Verdict::Expected) <==> observed == (ObservedCrash::MacGeneral { kind: 3, code: 0 })
                &&& (v(Signal::Illegal) == Verdict::Expected) <==> observed == ObservedCrash::MacBadInstructionArm(1)
                &&& (v(Signal::Trap) == Verdict::Expected) <==> observed == ObservedCrash::MacBreakpointArm(1)
            }
            &&& cpu == TargetCpu::X86_64 ==> {
                &&& (v(Signal::Fpe) == Verdict::Expected) <==> observed == ObservedCrash::MacArithmeticX86(1)
                &&& (v(Signal::Illegal) == Verdict::Expected) <==> observed == ObservedCrash::MacBadInstructionX86(1)
                &&& (v(Signal::Trap) == Verdict::Expected) <==> observed == ObservedCrash::MacBreakpointX86(2)
            }
            &&& (cpu != TargetCpu::Arm64 && cpu != TargetCpu::X86_64) ==> (v(Signal::Fpe) == Verdict::Unsupported
                && v(Signal::Illegal) == Verdict::Unsupported && v(Signal::Trap) == Verdict::Unsupported)
            &&& (v(Signal::Guard) == Verdict::Expected) <==> (observed matches ObservedCrash::MacGuard { kind, code, guard_id: id }
                && kind == 2 && id == guard_id && code as int / 0x2000_0000_0000_0000 == 2
                && (code as int / 0x1_0000_0000) % 0x2000_0000 == 1)
            &&& v(Signal::Purecall) == Verdict::Unsupported && v(Signal::InvalidParameter) == Verdict::Unsupported
        }),
{
    if let ObservedCrash::MacGuard { kind, code, guard_id: id } = observed {
        assert(((code >> 61u64) & 7u64 == 2u64 && (code >> 32u64) & 0x1fff_ffffu64 == 1u64) <==> (
        code as int / 0x2000_0000_0000_0000 == 2 && (code as int / 0x1_0000_0000) % 0x2000_0000
            == 1)) by (bit_vector);
    }
}

/// No system but Linux, Windows and macOS can judge a provoked crash.
pub proof fn lemma_other_os_unsupported(
    cpu: TargetCpu,
    signal: Signal,
    observed: ObservedCrash,
    address: u64,
    segfault_address: u64,
    guard_id: u64,
)
    ensures
        spec_expected_crash(TargetOs::Other, cpu, signal, observed, address, segfault_address, guard_id)
            == Verdict::Unsupported,
{
}

} // verus!
