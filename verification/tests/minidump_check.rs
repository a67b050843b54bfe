use crash_handling::harness::{
    check_minidump, observed_crash, platform_id, processor_architecture, ObservedCrash, Signal,
    TargetCpu, TargetOs, Verdict, ARCH_AMD64, ARCH_ARM, ARCH_ARM64, ARCH_INTEL, ARCH_UNKNOWN,
    PLATFORM_LINUX, PLATFORM_MACOS, PLATFORM_UNIX, PLATFORM_WIN32_NT,
};
use minidump::CrashReason;
use minidump_common::errors as e;
use minidump_common::format as md;
use scroll::Pwrite;

/// A minidump with a single exception stream holding the given record.
fn minidump_with_exception(code: u32, flags: u32, address: u64, info: &[u64]) -> Vec<u8> {
    let header_size = 32;
    let dir_size = 12;
    let stream_size = 168;
    let mut buf = vec![0u8; header_size + dir_size + stream_size];
    let header = md::MINIDUMP_HEADER {
        signature: md::MINIDUMP_SIGNATURE,
        version: md::MINIDUMP_VERSION,
        stream_count: 1,
        stream_directory_rva: header_size as u32,
        checksum: 0,
        time_date_stamp: 0,
        flags: 0,
    };
    buf.pwrite_with(header, 0, scroll::Endian::Little).unwrap();
    let dir = md::MINIDUMP_DIRECTORY {
        stream_type: md::MINIDUMP_STREAM_TYPE::ExceptionStream as u32,
        location: md::MINIDUMP_LOCATION_DESCRIPTOR {
            data_size: stream_size as u32,
            rva: (header_size + dir_size) as u32,
        },
    };
    buf.pwrite_with(dir, header_size, scroll::Endian::Little).unwrap();
    let mut exception_information = [0u64; 15];
    exception_information[..info.len()].copy_from_slice(info);
    let stream = md::MINIDUMP_EXCEPTION_STREAM {
        thread_id: 7,
        __align: 0,
        exception_record: md::MINIDUMP_EXCEPTION {
            exception_code: code,
            exception_flags: flags,
            exception_record: 0,
            exception_address: address,
            number_parameters: info.len() as u32,
            __align: 0,
            exception_information,
        },
        thread_context: md::MINIDUMP_LOCATION_DESCRIPTOR::default(),
    };
    buf.pwrite_with(stream, header_size + dir_size, scroll::Endian::Little).unwrap();
    buf
}

#[test]
fn platform_ids_match_minidump_common() {
    assert_eq!(PLATFORM_LINUX, md::PlatformId::Linux as u32);
    assert_eq!(PLATFORM_WIN32_NT, md::PlatformId::VER_PLATFORM_WIN32_NT as u32);
    assert_eq!(PLATFORM_MACOS, md::PlatformId::MacOs as u32);
    assert_eq!(PLATFORM_UNIX, md::PlatformId::Unix as u32);
    assert_eq!(ARCH_INTEL, md::ProcessorArchitecture::PROCESSOR_ARCHITECTURE_INTEL as u16);
    assert_eq!(ARCH_ARM, md::ProcessorArchitecture::PROCESSOR_ARCHITECTURE_ARM as u16);
    assert_eq!(ARCH_AMD64, md::ProcessorArchitecture::PROCESSOR_ARCHITECTURE_AMD64 as u16);
    assert_eq!(ARCH_ARM64, md::ProcessorArchitecture::PROCESSOR_ARCHITECTURE_ARM64 as u16);
    assert_eq!(ARCH_UNKNOWN, md::ProcessorArchitecture::PROCESSOR_ARCHITECTURE_UNKNOWN as u16);
    assert_eq!(platform_id(TargetOs::Linux), PLATFORM_LINUX);
    assert_eq!(platform_id(TargetOs::Windows), PLATFORM_WIN32_NT);
    assert_eq!(processor_architecture(TargetCpu::X86_64), ARCH_AMD64);
    assert_eq!(processor_architecture(TargetCpu::Arm64), ARCH_ARM64);
}

#[test]
fn linux_segfault_minidump() {
    // SIGSEGV with SEGV_MAPERR
    let md = minidump_with_exception(11, 1, 0x1234, &[]);
    let check = |s| check_minidump(&md, s, TargetOs::Linux, TargetCpu::X86_64, 0, 0);
    assert_eq!(check(Signal::Segv), Some(Verdict::Expected));
    assert_eq!(check(Signal::StackOverflow), Some(Verdict::Expected));
    assert_eq!(check(Signal::Bus), Some(Verdict::Unexpected));
    assert_eq!(check(Signal::Guard), Some(Verdict::Unsupported));
}

#[test]
fn linux_abort_minidump() {
    // SIGABRT, with a flag that no refinement knows
    let md = minidump_with_exception(6, 0, 0, &[]);
    let check = |s| check_minidump(&md, s, TargetOs::Linux, TargetCpu::X86_64, 0, 0);
    assert_eq!(check(Signal::Abort), Some(Verdict::Expected));
    assert_eq!(check(Signal::Trap), Some(Verdict::Unexpected));
}

#[test]
fn windows_access_violation_minidump() {
    // EXCEPTION_ACCESS_VIOLATION, a write at 0x42
    let md = minidump_with_exception(0xc000_0005, 0, 0x1000, &[1, 0x42]);
    let check = |addr| check_minidump(&md, Signal::Segv, TargetOs::Windows, TargetCpu::X86_64, addr, 0);
    assert_eq!(check(0x42), Some(Verdict::Expected));
    // the crash address is the faulting address, not the instruction address
    assert_eq!(check(0x1000), Some(Verdict::Unexpected));
}

#[test]
fn mac_bad_access_minidump() {
    // EXC_BAD_ACCESS with KERN_INVALID_ADDRESS at the segfault address
    let md = minidump_with_exception(1, 1, 0x42, &[1, 0x42]);
    let check = |s| check_minidump(&md, s, TargetOs::MacOs, TargetCpu::Arm64, 0x42, 0);
    assert_eq!(check(Signal::Segv), Some(Verdict::Expected));
    assert_eq!(check(Signal::StackOverflow), Some(Verdict::Unexpected));
}

#[test]
fn the_same_minidump_read_for_another_os() {
    // code 11 is SIGSEGV on Linux but no known Windows exception
    let md = minidump_with_exception(11, 1, 0x1234, &[]);
    assert_eq!(
        check_minidump(&md, Signal::Segv, TargetOs::Windows, TargetCpu::X86_64, 0x1234, 0),
        Some(Verdict::Unexpected)
    );
}

#[test]
fn not_a_minidump() {
    assert_eq!(check_minidump(&[], Signal::Segv, TargetOs::Linux, TargetCpu::X86_64, 0, 0), None);
    assert_eq!(
        check_minidump(b"not a minidump at all, just some bytes", Signal::Segv, TargetOs::Linux, TargetCpu::X86_64, 0, 0),
        None
    );
}

#[test]
fn minidump_without_exception_stream() {
    let mut md = minidump_with_exception(11, 1, 0, &[]);
    // stream type 0 (unused) in place of the exception stream
    md[32..36].copy_from_slice(&[0, 0, 0, 0]);
    assert_eq!(check_minidump(&md, Signal::Segv, TargetOs::Linux, TargetCpu::X86_64, 0, 0), None);
}

#[test]
fn observed_crash_of_reasons() {
    assert_eq!(
        observed_crash(&CrashReason::LinuxSigsegv(e::ExceptionCodeLinuxSigsegvKind::SEGV_ACCERR)),
        ObservedCrash::LinuxSigsegv(2)
    );
    assert_eq!(
        observed_crash(&CrashReason::WindowsGeneral(e::ExceptionCodeWindows::EXCEPTION_BREAKPOINT)),
        ObservedCrash::WindowsGeneral(0x8000_0003)
    );
    assert_eq!(
        observed_crash(&CrashReason::MacBadAccessKern(
            e::ExceptionCodeMacBadAccessKernType::KERN_PROTECTION_FAILURE
        )),
        ObservedCrash::MacBadAccessKern(2)
    );
    assert_eq!(
        observed_crash(&CrashReason::MacGuard(e::ExceptionCodeMacGuardType::GUARD_TYPE_FD, 5, 9)),
        ObservedCrash::MacGuard { kind: 2, code: 5, guard_id: 9 }
    );
    assert_eq!(observed_crash(&CrashReason::Unknown(1, 2)), ObservedCrash::Other);
}
