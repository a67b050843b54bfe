use crash_handling::harness::{
    client_args, client_end_expected, client_path, judge_crash, make_dump_path, push_decimal, test_id, threaded_test_count,
    ObservedCrash, Signal, TargetCpu, TargetOs, Verdict, BUS_ADRERR, EXC_ARM_BREAKPOINT,
    EXC_ARM_UNDEFINED, EXC_I386_BPT, EXC_I386_DIV, EXC_I386_INVOP, FPE_INTDIV, GUARD_TYPE_FD,
    ILL_ILLOPN, KERN_INVALID_ADDRESS, KERN_MEMORY_ERROR, KERN_PROTECTION_FAILURE, LINUX_SIGABRT,
    LINUX_SIGTRAP, MAC_EXC_ARITHMETIC, MAC_EXC_SOFTWARE, SEGV_ACCERR, SEGV_MAPERR, WIN_ACCESS_WRITE,
    WIN_BREAKPOINT, WIN_ILLEGAL_INSTRUCTION, WIN_INT_DIVIDE_BY_ZERO, WIN_NONCONTINUABLE_EXCEPTION,
    WIN_STACK_OVERFLOW, WIN_STATUS_INVALID_PARAMETER,
};
use minidump_common::errors as e;

#[test]
fn signal_names() {
    let names: Vec<&str> = [
        Signal::Abort,
        Signal::Bus,
        Signal::Fpe,
        Signal::Illegal,
        Signal::Segv,
        Signal::StackOverflow,
        Signal::StackOverflowCThread,
        Signal::Trap,
        Signal::Purecall,
        Signal::InvalidParameter,
        Signal::Guard,
    ]
    .iter()
    .map(|s| s.name())
    .collect();
    assert_eq!(
        names,
        [
            "abort",
            "bus",
            "fpe",
            "illegal",
            "segv",
            "stack-overflow",
            "stack-overflow-c-thread",
            "trap",
            "purecall",
            "invalid-parameter",
            "guard"
        ]
    );
}

#[test]
fn test_ids_and_dump_paths() {
    assert_eq!(test_id(Signal::Segv, 12, true), "segv-12-threaded");
    assert_eq!(test_id(Signal::StackOverflow, 0, false), "stack-overflow-0-simple");
    assert_eq!(test_id(Signal::Fpe, u32::MAX, false), "fpe-4294967295-simple");
    assert_eq!(make_dump_path("segv-0-simple"), ".dumps/segv-0-simple.dmp");
    let mut s = String::from("n=");
    push_decimal(&mut s, 1009);
    assert_eq!(s, "n=1009");
}

#[test]
fn threaded_counts() {
    assert_eq!(threaded_test_count(true, true), 1);
    assert_eq!(threaded_test_count(false, true), 4);
    assert_eq!(threaded_test_count(false, false), 16);
}

#[test]
fn client_arguments() {
    assert_eq!(client_args("x-1", Signal::Trap, false, false), ["--id", "x-1", "--signal", "trap"]);
    assert_eq!(
        client_args("y", Signal::Bus, true, true),
        ["--id", "y", "--signal", "bus", "--use-thread", "--wait-on-debugger"]
    );
}

#[test]
fn judging_linux_crashes() {
    let j = |s, o| judge_crash(TargetOs::Linux, TargetCpu::X86_64, s, o, 0, 0x42, 7);
    assert_eq!(j(Signal::Abort, ObservedCrash::LinuxGeneral { signal: 6 }), Verdict::Expected);
    assert_eq!(j(Signal::Trap, ObservedCrash::LinuxGeneral { signal: 6 }), Verdict::Unexpected);
    assert_eq!(j(Signal::Bus, ObservedCrash::LinuxSigbus(BUS_ADRERR)), Verdict::Expected);
    assert_eq!(j(Signal::Fpe, ObservedCrash::LinuxSigfpe(FPE_INTDIV)), Verdict::Expected);
    assert_eq!(j(Signal::Illegal, ObservedCrash::LinuxSigill(ILL_ILLOPN)), Verdict::Expected);
    assert_eq!(j(Signal::Segv, ObservedCrash::LinuxSigsegv(SEGV_MAPERR)), Verdict::Expected);
    assert_eq!(j(Signal::Segv, ObservedCrash::LinuxSigsegv(SEGV_ACCERR)), Verdict::Unexpected);
    assert_eq!(j(Signal::StackOverflow, ObservedCrash::LinuxSigsegv(SEGV_ACCERR)), Verdict::Expected);
    assert_eq!(
        j(Signal::StackOverflowCThread, ObservedCrash::LinuxSigsegv(SEGV_MAPERR)),
        Verdict::Expected
    );
    assert_eq!(j(Signal::Purecall, ObservedCrash::Other), Verdict::Unsupported);
}

#[test]
fn judging_windows_crashes() {
    let j = |s, o, addr| judge_crash(TargetOs::Windows, TargetCpu::X86_64, s, o, addr, 0x42, 7);
    assert_eq!(
        j(Signal::Segv, ObservedCrash::WindowsAccessViolation(WIN_ACCESS_WRITE), 0x42),
        Verdict::Expected
    );
    assert_eq!(
        j(Signal::Segv, ObservedCrash::WindowsAccessViolation(WIN_ACCESS_WRITE), 0x43),
        Verdict::Unexpected
    );
    assert_eq!(
        j(Signal::Purecall, ObservedCrash::WindowsGeneral(WIN_NONCONTINUABLE_EXCEPTION), 0),
        Verdict::Expected
    );
    assert_eq!(
        j(Signal::InvalidParameter, ObservedCrash::WindowsNtStatus(WIN_STATUS_INVALID_PARAMETER), 0),
        Verdict::Expected
    );
    assert_eq!(j(Signal::Abort, ObservedCrash::Other, 0), Verdict::Unsupported);
}

#[test]
fn judging_mac_crashes() {
    let code = (2u64 << 61) | (1u64 << 32) | 5;
    let guard = ObservedCrash::MacGuard { kind: GUARD_TYPE_FD, code, guard_id: 0x1234 };
    assert_eq!(
        judge_crash(TargetOs::MacOs, TargetCpu::Arm64, Signal::Guard, guard, 0, 0, 0x1234),
        Verdict::Expected
    );
    assert_eq!(
        judge_crash(TargetOs::MacOs, TargetCpu::Arm64, Signal::Guard, guard, 0, 0, 0x4321),
        Verdict::Unexpected
    );
    assert_eq!(
        judge_crash(
            TargetOs::MacOs,
            TargetCpu::X86_64,
            Signal::Trap,
            ObservedCrash::MacBreakpointX86(EXC_I386_BPT),
            0,
            0,
            0
        ),
        Verdict::Expected
    );
    assert_eq!(
        judge_crash(
            TargetOs::MacOs,
            TargetCpu::Arm64,
            Signal::Fpe,
            ObservedCrash::MacGeneral { kind: MAC_EXC_ARITHMETIC, code: 0 },
            0,
            0,
            0
        ),
        Verdict::Expected
    );
    assert_eq!(
        judge_crash(TargetOs::MacOs, TargetCpu::X86, Signal::Fpe, ObservedCrash::Other, 0, 0, 0),
        Verdict::Unsupported
    );
    assert_eq!(
        judge_crash(TargetOs::Other, TargetCpu::X86_64, Signal::Segv, ObservedCrash::Other, 0, 0, 0),
        Verdict::Unsupported
    );
}

#[test]
fn expected_codes_match_minidump_common() {
    assert_eq!(LINUX_SIGABRT, e::ExceptionCodeLinux::SIGABRT as u32);
    assert_eq!(LINUX_SIGTRAP, e::ExceptionCodeLinux::SIGTRAP as u32);
    assert_eq!(BUS_ADRERR, e::ExceptionCodeLinuxSigbusKind::BUS_ADRERR as u32);
    assert_eq!(FPE_INTDIV, e::ExceptionCodeLinuxSigfpeKind::FPE_INTDIV as u32);
    assert_eq!(ILL_ILLOPN, e::ExceptionCodeLinuxSigillKind::ILL_ILLOPN as u32);
    assert_eq!(SEGV_MAPERR, e::ExceptionCodeLinuxSigsegvKind::SEGV_MAPERR as u32);
    assert_eq!(SEGV_ACCERR, e::ExceptionCodeLinuxSigsegvKind::SEGV_ACCERR as u32);
    assert_eq!(WIN_INT_DIVIDE_BY_ZERO, e::ExceptionCodeWindows::EXCEPTION_INT_DIVIDE_BY_ZERO as u32);
    assert_eq!(WIN_ILLEGAL_INSTRUCTION, e::ExceptionCodeWindows::EXCEPTION_ILLEGAL_INSTRUCTION as u32);
    assert_eq!(WIN_STACK_OVERFLOW, e::ExceptionCodeWindows::EXCEPTION_STACK_OVERFLOW as u32);
    assert_eq!(WIN_BREAKPOINT, e::ExceptionCodeWindows::EXCEPTION_BREAKPOINT as u32);
    assert_eq!(
        WIN_NONCONTINUABLE_EXCEPTION,
        e::ExceptionCodeWindows::EXCEPTION_NONCONTINUABLE_EXCEPTION as u32
    );
    assert_eq!(WIN_STATUS_INVALID_PARAMETER, e::NtStatusWindows::STATUS_INVALID_PARAMETER as u32);
    assert_eq!(WIN_ACCESS_WRITE, e::ExceptionCodeWindowsAccessType::WRITE as u64);
    assert_eq!(MAC_EXC_ARITHMETIC, e::ExceptionCodeMac::EXC_ARITHMETIC as u32);
    assert_eq!(MAC_EXC_SOFTWARE, e::ExceptionCodeMac::EXC_SOFTWARE as u32);
    assert_eq!(KERN_INVALID_ADDRESS, e::ExceptionCodeMacBadAccessKernType::KERN_INVALID_ADDRESS as u32);
    assert_eq!(
        KERN_PROTECTION_FAILURE,
        e::ExceptionCodeMacBadAccessKernType::KERN_PROTECTION_FAILURE as u32
    );
    assert_eq!(KERN_MEMORY_ERROR, e::ExceptionCodeMacBadAccessKernType::KERN_MEMORY_ERROR as u32);
    assert_eq!(EXC_I386_DIV, e::ExceptionCodeMacArithmeticX86Type::EXC_I386_DIV as u32);
    assert_eq!(EXC_I386_INVOP, e::ExceptionCodeMacBadInstructionX86Type::EXC_I386_INVOP as u32);
    assert_eq!(EXC_I386_BPT, e::ExceptionCodeMacBreakpointX86Type::EXC_I386_BPT as u32);
    assert_eq!(EXC_ARM_UNDEFINED, e::ExceptionCodeMacBadInstructionArmType::EXC_ARM_UNDEFINED as u32);
    assert_eq!(EXC_ARM_BREAKPOINT, e::ExceptionCodeMacBreakpointArmType::EXC_ARM_BREAKPOINT as u32);
    assert_eq!(GUARD_TYPE_FD, e::ExceptionCodeMacGuardType::GUARD_TYPE_FD as u32);
}

fn strings(v: &[&str]) -> Vec<String> {
    v.iter().map(|s| s.to_string()).collect()
}

#[test]
fn client_path_beside_the_executable() {
    assert_eq!(
        client_path(strings(&["/", "target", "debug", "deps", "tests-1234"]), false),
        strings(&["/", "target", "debug", "crash-client"])
    );
    assert_eq!(
        client_path(strings(&["/", "target", "debug", "runner"]), false),
        strings(&["/", "target", "debug", "crash-client"])
    );
    assert_eq!(
        client_path(strings(&["C:\\", "target", "debug", "deps", "t.exe"]), true),
        strings(&["C:\\", "target", "debug", "crash-client.exe"])
    );
    assert_eq!(client_path(Vec::new(), false), strings(&["crash-client"]));
}

#[test]
fn client_must_end_by_a_signal_on_unix() {
    assert!(client_end_expected(None, true));
    assert!(!client_end_expected(Some(0), true));
    assert!(!client_end_expected(Some(222), true));
    assert!(client_end_expected(Some(222), false));
}
