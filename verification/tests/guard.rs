use crash_handling::context::guard::{
    extract_guard_exception, extract_guard_flavor, extract_guard_kind, extract_guard_target,
    ExceptionInfo, GuardKind, EXC_GUARD,
};

#[test]
fn guard_code_fields_are_extracted() {
    // guard type FD (2), flavor GUARD_CLOSE (1), target fd 7
    let code: i64 = ((2u64 << 61) | (1u64 << 32) | 7) as i64;
    assert_eq!(extract_guard_kind(code), GuardKind::Fd.number());
    assert_eq!(extract_guard_flavor(code), 1);
    assert_eq!(extract_guard_target(code), 7);
    let g = extract_guard_exception(code, -1);
    assert_eq!(g.kind, 2);
    assert_eq!(g.flavor, 1);
    assert_eq!(g.target, 7);
    assert_eq!(g.identifier, u64::MAX);
}

#[test]
fn guard_exception_only_for_exc_guard() {
    let info = ExceptionInfo { kind: EXC_GUARD as i32, code: (1u64 << 61) as i64, subcode: None };
    let g = info.guard_exception().expect("EXC_GUARD");
    assert_eq!(g.kind, 1);
    assert_eq!(g.identifier, 0);
    let bad_access = ExceptionInfo { kind: 1, code: 0, subcode: Some(5) };
    assert!(bad_access.guard_exception().is_none());
}

#[test]
fn guard_code_roundtrip_on_concrete_values() {
    for (kind, flavor, target) in [(0u64, 0u64, 0u64), (7, 0x1fff_ffff, 0xffff_ffff), (2, 1, 42)] {
        let code = ((kind << 61) | (flavor << 32) | target) as i64;
        assert_eq!(extract_guard_kind(code) as u64, kind);
        assert_eq!(extract_guard_flavor(code) as u64, flavor);
        assert_eq!(extract_guard_target(code) as u64, target);
    }
}

#[test]
fn guard_kind_numbers() {
    assert_eq!(GuardKind::Null.number(), 0);
    assert_eq!(GuardKind::MachPort.number(), 1);
    assert_eq!(GuardKind::Fd.number(), 2);
    assert_eq!(GuardKind::User.number(), 3);
    assert_eq!(GuardKind::Vnode.number(), 4);
    assert_eq!(GuardKind::VirtualMemory.number(), 5);
    assert_eq!(GuardKind::RejectedSyscall.number(), 6);
}

#[test]
fn guard_exception_uses_subcode_as_identifier() {
    let info = ExceptionInfo {
        kind: EXC_GUARD as i32,
        code: ((2u64 << 61) | (1u64 << 32) | 3) as i64,
        subcode: Some(0x1234567890abcdef),
    };
    let g = info.guard_exception().unwrap();
    assert_eq!((g.kind, g.flavor, g.target, g.identifier), (2, 1, 3, 0x1234567890abcdef));
}
