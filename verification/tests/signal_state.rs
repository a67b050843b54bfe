use crash_handling::crash_handler::linux::Signal;
use crash_handling::signal_state::{
    after_signal, alt_stack_layout, disabled_stack, exception_signals, existing_stack_suffices,
    get_stack_size, handler_flags, is_trusted_signal, lost_siginfo, must_reraise, new_alt_stack,
    restore_step, stack_save, AfterSignal, AltStackLayout, RestoreStep, StackInfo, MIN_STACK_SIZE,
    SA_ONSTACK, SA_SIGINFO, SI_TKILL, SI_USER, SS_DISABLE,
};
use crash_handling::signal_state::{
    install_plan, plan_alt_stack, reinstall_fallback, signal_entry, AltStackError, AltStackPlan,
    AltStackState, HandlerEntry, SavedActions,
};

#[test]
fn signal_numbers_match_libc() {
    assert_eq!(Signal::Hup.number(), libc::SIGHUP);
    assert_eq!(Signal::Int.number(), libc::SIGINT);
    assert_eq!(Signal::Quit.number(), libc::SIGQUIT);
    assert_eq!(Signal::Ill.number(), libc::SIGILL);
    assert_eq!(Signal::Trap.number(), libc::SIGTRAP);
    assert_eq!(Signal::Abort.number(), libc::SIGABRT);
    assert_eq!(Signal::Bus.number(), libc::SIGBUS);
    assert_eq!(Signal::Fpe.number(), libc::SIGFPE);
    assert_eq!(Signal::Kill.number(), libc::SIGKILL);
    assert_eq!(Signal::Segv.number(), libc::SIGSEGV);
    assert_eq!(Signal::Pipe.number(), libc::SIGPIPE);
    assert_eq!(Signal::Alarm.number(), libc::SIGALRM);
    assert_eq!(Signal::Term.number(), libc::SIGTERM);
    assert_eq!(SS_DISABLE, libc::SS_DISABLE);
    assert_eq!(SA_SIGINFO, libc::SA_SIGINFO);
    assert_eq!(SA_ONSTACK, libc::SA_ONSTACK);
}

#[test]
fn handled_signals_and_flags() {
    assert_eq!(
        exception_signals(),
        [libc::SIGSEGV, libc::SIGABRT, libc::SIGFPE, libc::SIGILL, libc::SIGBUS, libc::SIGTRAP]
    );
    assert_eq!(handler_flags(), libc::SA_ONSTACK | libc::SA_SIGINFO);
}

#[test]
fn existing_alternate_stack_is_kept_only_when_enabled_and_large_enough() {
    assert!(existing_stack_suffices(StackInfo { sp: 0x1000, flags: 0, size: 16384 }));
    assert!(!existing_stack_suffices(StackInfo { sp: 0x1000, flags: 0, size: 16383 }));
    assert!(!existing_stack_suffices(StackInfo { sp: 0, flags: SS_DISABLE, size: 1 << 20 }));
}

#[test]
fn new_alternate_stack_sits_past_a_guard_page() {
    let layout = alt_stack_layout(4096);
    assert_eq!(layout, AltStackLayout { alloc_size: 4096 + 16384, guard_size: 4096 });
    let stack = new_alt_stack(0x7000_0000, layout);
    assert_eq!(stack, StackInfo { sp: 0x7000_1000, flags: 0, size: MIN_STACK_SIZE });
}

#[test]
fn restoring_the_alternate_stack() {
    let new = StackInfo { sp: 0x5000, flags: 0, size: MIN_STACK_SIZE };
    let disabled_old = StackInfo { sp: 0, flags: SS_DISABLE, size: 0 };
    let small_old = StackInfo { sp: 0x9000, flags: 0, size: 1024 };
    let layout = AltStackLayout { alloc_size: 4096 + MIN_STACK_SIZE, guard_size: 4096 };
    let save = stack_save(small_old, new, 0x4000, layout);
    assert_eq!((save.map_start, save.map_size), (0x4000, 4096 + MIN_STACK_SIZE));
    assert_eq!(save.old, Some(small_old));
    assert_eq!(stack_save(disabled_old, new, 0x4000, layout).old, None);
    // the enabled but too small stack is put back
    assert_eq!(restore_step(save, new), RestoreStep::Install(small_old));
    // a disabled stack is disabled again
    assert_eq!(
        restore_step(stack_save(disabled_old, new, 0x4000, layout), new),
        RestoreStep::Install(disabled_stack())
    );
    assert_eq!(restore_step(save, small_old), RestoreStep::UnmapOnly);
}

#[test]
fn thread_stack_size_is_at_least_16k() {
    assert_eq!(get_stack_size(8192), 16384);
    assert_eq!(get_stack_size(65536), 65536);
}

#[test]
fn signal_handler_decisions() {
    assert!(lost_siginfo(true, SA_ONSTACK));
    assert!(!lost_siginfo(true, SA_ONSTACK | SA_SIGINFO));
    assert!(!lost_siginfo(false, 0));
    assert_eq!(after_signal(true), AfterSignal::InstallDefault);
    assert_eq!(after_signal(false), AfterSignal::RestorePrevious);
    assert!(must_reraise(SI_USER, libc::SIGSEGV));
    assert!(must_reraise(1, libc::SIGABRT));
    assert!(!must_reraise(1, libc::SIGSEGV));
    assert!(is_trusted_signal(1, 0, 7));
    assert!(is_trusted_signal(SI_USER, 7, 7));
    assert!(is_trusted_signal(SI_TKILL, 7, 7));
    assert!(!is_trusted_signal(SI_USER, 8, 7));
    assert!(!is_trusted_signal(-1, 7, 7));
}

#[test]
fn alternate_stack_state_machine() {
    let page = 4096;
    let too_small = StackInfo { sp: 0x9000, flags: 0, size: 1024 };
    let layout = match plan_alt_stack(too_small, page) {
        AltStackPlan::MapNew(layout) => layout,
        AltStackPlan::Keep => panic!("a small stack is replaced"),
    };
    assert_eq!(layout, AltStackLayout { alloc_size: page + MIN_STACK_SIZE, guard_size: page });
    let big = StackInfo { sp: 0x9000, flags: 0, size: 1 << 20 };
    assert_eq!(plan_alt_stack(big, page), AltStackPlan::Keep);

    let mut state = AltStackState::new();
    // a failed mapping is out of memory and remembers nothing
    assert_eq!(state.record_mapping(too_small, None, layout), Err(AltStackError::OutOfMemory));
    assert_eq!(state.restore_plan(Some(too_small)), None);
    assert_eq!(state.finish_restore(), None);

    let new = state.record_mapping(too_small, Some(0x10_0000), layout).unwrap();
    assert_eq!(new, StackInfo { sp: 0x10_0000 + page, flags: 0, size: MIN_STACK_SIZE });
    // a failed query of the current stack stops the restore, keeping the stack
    assert_eq!(state.restore_plan(None), None);
    assert_eq!(state.restore_plan(Some(new)), Some(RestoreStep::Install(too_small)));
    assert_eq!(state.restore_plan(Some(big)), Some(RestoreStep::UnmapOnly));
    // the whole mapping, guard page included, is released, then forgotten
    assert_eq!(state.finish_restore(), Some((0x10_0000, page + MIN_STACK_SIZE)));
    assert_eq!(state.finish_restore(), None);
    assert_eq!(state.restore_plan(Some(new)), None);
}

#[test]
fn saved_actions_are_recorded_once() {
    let mut actions: SavedActions<u32> = SavedActions::new();
    assert!(!actions.is_saved());
    assert!(actions.record(None).is_none(), "a failed query installs nothing");
    assert!(!actions.is_saved());
    let plan = actions.record(Some(1)).expect("first install");
    assert_eq!(plan.signals, install_plan().signals);
    assert!(actions.record(Some(2)).is_none(), "a second install changes nothing");
    assert_eq!(actions.take(), Some(1));
    assert_eq!(actions.take(), None);
}

#[test]
fn lost_siginfo_recovery() {
    let sig = libc::SIGSEGV;
    assert_eq!(
        signal_entry(sig, Some((true, SA_ONSTACK))),
        HandlerEntry::Reinstall { signal: sig, mask_signal: sig, flags: SA_ONSTACK | SA_SIGINFO }
    );
    assert_eq!(signal_entry(sig, Some((true, SA_ONSTACK | SA_SIGINFO))), HandlerEntry::Dispatch);
    assert_eq!(signal_entry(sig, Some((false, 0))), HandlerEntry::Dispatch);
    assert_eq!(signal_entry(sig, None), HandlerEntry::Dispatch);
    assert!(reinstall_fallback(false));
    assert!(!reinstall_fallback(true));
}
