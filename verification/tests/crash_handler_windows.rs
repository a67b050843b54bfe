use windows_sys::Win32::Foundation as found;
use crash_handling::context::windows as codes;
use crash_handling::crash_handler::windows::{
    exception_filter_action, filter_return_value, invalid_parameter_action,
    pure_virtual_call_action, CrashHandler, ExceptionCode, FilterAction, HandlerSlot,
    InvalidParameterAction, PurecallAction, EXCEPTION_CONTINUE_SEARCH, EXCEPTION_EXECUTE_HANDLER,
};
use crash_handling::crash_handler::{CrashEventResult, Error};

#[test]
fn only_one_handler_at_a_time() {
    let mut slot: HandlerSlot<u32> = HandlerSlot::new();
    assert!(!slot.is_installed());
    let first = CrashHandler::attach(&mut slot, || 1).expect("first attach");
    let mut built = false;
    let second = CrashHandler::attach(&mut slot, || {
        built = true;
        2
    });
    assert!(matches!(second, Err(Error::HandlerAlreadyInstalled)));
    assert!(!built, "the second handler must not be installed");
    assert_eq!(slot.handler(), Some(&1));
    assert_eq!(first.detach(&mut slot), Some(1));
    assert!(!slot.is_installed());
    let third = CrashHandler::attach(&mut slot, || 3);
    assert!(third.is_ok());
    assert_eq!(slot.handler(), Some(&3));
}

#[test]
fn crash_event_result_from_bool() {
    assert_eq!(CrashEventResult::from(true), CrashEventResult::Handled(true));
    assert_eq!(CrashEventResult::from(false), CrashEventResult::Handled(false));
}

#[test]
fn simulated_exception_defaults_to_noncontinuable() {
    assert_eq!(CrashHandler::simulated_exception_code(None), codes::STATUS_NONCONTINUABLE_EXCEPTION);
    assert_eq!(CrashHandler::simulated_exception_code(Some(5)), 5);
    assert_eq!(
        CrashHandler::simulate_exception_result(None),
        CrashEventResult::Handled(false)
    );
    assert_eq!(
        CrashHandler::simulate_exception_result(Some(CrashEventResult::Handled(true))),
        CrashEventResult::Handled(true)
    );
}

#[test]
fn exception_filter_decisions() {
    let jump = CrashEventResult::Jump { jmp_buf: 0x1000, value: 1 };
    assert_eq!(exception_filter_action(None, true), FilterAction::ContinueSearch);
    assert_eq!(
        exception_filter_action(Some(CrashEventResult::Handled(true)), true),
        FilterAction::ExecuteHandler
    );
    assert_eq!(
        exception_filter_action(Some(CrashEventResult::Handled(false)), true),
        FilterAction::CallPreviousFilter
    );
    assert_eq!(
        exception_filter_action(Some(CrashEventResult::Handled(false)), false),
        FilterAction::ContinueSearch
    );
    assert_eq!(
        exception_filter_action(Some(jump), false),
        FilterAction::Jump { jmp_buf: 0x1000, value: 1 }
    );
    assert_eq!(filter_return_value(FilterAction::ExecuteHandler), Some(EXCEPTION_EXECUTE_HANDLER));
    assert_eq!(filter_return_value(FilterAction::ContinueSearch), Some(EXCEPTION_CONTINUE_SEARCH));
    assert_eq!(filter_return_value(FilterAction::CallPreviousFilter), None);
    assert_eq!(EXCEPTION_EXECUTE_HANDLER, 1);
    assert_eq!(EXCEPTION_CONTINUE_SEARCH, 0);
}

#[test]
fn invalid_parameter_decisions() {
    assert_eq!(invalid_parameter_action(None, true), InvalidParameterAction::InvokeWatson);
    assert_eq!(
        invalid_parameter_action(Some(CrashEventResult::Handled(true)), false),
        InvalidParameterAction::Return
    );
    assert_eq!(
        invalid_parameter_action(Some(CrashEventResult::Handled(false)), true),
        InvalidParameterAction::CallPreviousThenExit
    );
    assert_eq!(
        invalid_parameter_action(Some(CrashEventResult::Handled(false)), false),
        InvalidParameterAction::InvokeWatson
    );
    assert_eq!(
        invalid_parameter_action(Some(CrashEventResult::Jump { jmp_buf: 8, value: 0 }), true),
        InvalidParameterAction::Jump { jmp_buf: 8, value: 0 }
    );
}

#[test]
fn pure_virtual_call_decisions() {
    assert_eq!(pure_virtual_call_action(None, true), PurecallAction::Return);
    assert_eq!(
        pure_virtual_call_action(Some(CrashEventResult::Handled(true)), true),
        PurecallAction::Exit
    );
    assert_eq!(
        pure_virtual_call_action(Some(CrashEventResult::Handled(false)), true),
        PurecallAction::CallPreviousThenReturn
    );
    assert_eq!(
        pure_virtual_call_action(Some(CrashEventResult::Handled(false)), false),
        PurecallAction::Return
    );
}

#[test]
fn exception_codes_match_windows_sys() {
    assert_eq!(ExceptionCode::Fpe.code(), found::EXCEPTION_INT_DIVIDE_BY_ZERO);
    assert_eq!(ExceptionCode::Illegal.code(), found::EXCEPTION_ILLEGAL_INSTRUCTION);
    assert_eq!(ExceptionCode::Segv.code(), found::EXCEPTION_ACCESS_VIOLATION);
    assert_eq!(ExceptionCode::StackOverflow.code(), found::EXCEPTION_STACK_OVERFLOW);
    assert_eq!(ExceptionCode::Trap.code(), found::EXCEPTION_BREAKPOINT);
    assert_eq!(ExceptionCode::InvalidParam.code(), found::STATUS_INVALID_PARAMETER);
    assert_eq!(ExceptionCode::Purecall.code(), found::STATUS_NONCONTINUABLE_EXCEPTION);
    assert_eq!(codes::EXCEPTION_SINGLE_STEP, found::EXCEPTION_SINGLE_STEP);
    assert_eq!(codes::DBG_PRINTEXCEPTION_C, found::DBG_PRINTEXCEPTION_C);
    assert_eq!(codes::DBG_PRINTEXCEPTION_WIDE_C, found::DBG_PRINTEXCEPTION_WIDE_C);
}

#[test]
fn attach_then_detach_gives_back_the_previous_handlers() {
    // what the install saves: the filter, invalid parameter and purecall
    // handlers that were registered before
    let (f0, i0, p0) = (0x1000usize, 0x2000usize, 0x3000usize);
    let mut slot: HandlerSlot<(usize, usize, usize)> = HandlerSlot::new();
    let h = CrashHandler::attach(&mut slot, || (f0, i0, p0)).expect("empty slot");
    assert_eq!(h.detach(&mut slot), Some((f0, i0, p0)));
    assert!(!slot.is_installed());
    assert!(CrashHandler::attach(&mut slot, || (0, 0, 0)).is_ok());
}
