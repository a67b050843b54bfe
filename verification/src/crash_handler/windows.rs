//! Windows: a single crash handler at a time, installed as the unhandled
//! exception filter, the invalid parameter handler and the pure virtual call
//! handler. When one of them fires, the previously registered handlers are put
//! back while the user's code runs, and the user's answer decides what happens
//! next.
use vstd::prelude::*;
use super::{CrashEventResult, Error};
use crate::context::windows as codes;

verus! {

/// Possible exception code values for the `exception_code` field of the
/// crash context.
///
/// This is mainly for testing purposes, and is not exhaustive nor really
/// accurate, as eg. a distinction is made between a divide by zero between
/// integers and floats.
#[derive(Copy, Clone, Debug, PartialEq, Eq, Structural)]
pub enum ExceptionCode {
    Fpe,
    Illegal,
    Segv,
    StackOverflow,
    Trap,
    InvalidParam,
    Purecall,
}

impl ExceptionCode {
    /// The exception code the variant stands for.
    pub open spec fn spec_code(self) -> i32 {
        match self {
            ExceptionCode::Fpe => codes::EXCEPTION_INT_DIVIDE_BY_ZERO,
            ExceptionCode::Illegal => codes::EXCEPTION_ILLEGAL_INSTRUCTION,
            ExceptionCode::Segv => codes::EXCEPTION_ACCESS_VIOLATION,
            ExceptionCode::StackOverflow => codes::EXCEPTION_STACK_OVERFLOW,
            ExceptionCode::Trap => codes::EXCEPTION_BREAKPOINT,
            ExceptionCode::InvalidParam => codes::STATUS_INVALID_PARAMETER,
            ExceptionCode::Purecall => codes::STATUS_NONCONTINUABLE_EXCEPTION,
        }
    }

    /// The exception code the variant stands for.
    pub fn code(self) -> (c: i32)
        ensures
            c == self.spec_code(),
    {
        match self {
            ExceptionCode::Fpe => codes::EXCEPTION_INT_DIVIDE_BY_ZERO,
            ExceptionCode::Illegal => codes::EXCEPTION_ILLEGAL_INSTRUCTION,
            ExceptionCode::Segv => codes::EXCEPTION_ACCESS_VIOLATION,
            ExceptionCode::StackOverflow => codes::EXCEPTION_STACK_OVERFLOW,
            ExceptionCode::Trap => codes::EXCEPTION_BREAKPOINT,
            ExceptionCode::InvalidParam => codes::STATUS_INVALID_PARAMETER,
            ExceptionCode::Purecall => codes::STATUS_NONCONTINUABLE_EXCEPTION,
        }
    }
}

/// The handler is not entered, and the OS continues searching for an
/// exception handler.
pub const EXCEPTION_CONTINUE_SEARCH: i32 = 0;

/// Enter the exception handler.
pub const EXCEPTION_EXECUTE_HANDLER: i32 = 1;

/// The process-wide slot that holds the one installed handler.
pub struct HandlerSlot<T> {
    inner: Option<T>,
}

impl<T> View for HandlerSlot<T> {
    type V = Option<T>;

    closed spec fn view(&self) -> Option<T> {
        self.inner
    }
}

impl<T> HandlerSlot<T> {
    /// An empty slot.
    pub fn new() -> (s: Self)
        ensures
            s@ is None,
    {
        HandlerSlot { inner: None }
    }

    /// Whether a handler is installed.
    pub fn is_installed(&self) -> (b: bool)
        ensures
            b <==> self@ is Some,
    {
        self.inner.is_some()
    }

    /// The installed handler, if any.
    pub fn handler(&self) -> (h: Option<&T>)
        ensures
            h matches Some(r) ==> self@ == Some(*r),
            h is None <==> self@ is None,
    {
        match &self.inner {
            Some(t) => Some(t),
            None => None,
        }
    }
}

/// The crash handler. Only one can be attached at any one time.
pub struct CrashHandler;

impl CrashHandler {
    /// Attaches the crash handler that `install` builds: `install` is run
    /// (installing the process-wide handlers) only when no handler is
    /// attached yet; otherwise nothing changes and the attach fails with
    /// [`Error::HandlerAlreadyInstalled`].
    pub fn attach<T, F: FnOnce() -> T>(slot: &mut HandlerSlot<T>, install: F) -> (r: Result<
        CrashHandler,
        Error,
    >)
        requires
            call_requires(install, ()),
        ensures
            r is Ok <==> spec_attach_succeeds(old(slot)@),
            old(slot)@ is Some ==> (r matches Err(Error::HandlerAlreadyInstalled)) && final(slot)@
                == old(slot)@,
            old(slot)@ is None ==> r is Ok && (final(slot)@ matches Some(t) && call_ensures(
                install,
                (),
                t,
            ) && final(slot)@ == spec_attach_slot(old(slot)@, t)),
    {
        if slot.inner.is_some() {
            return Err(Error::HandlerAlreadyInstalled);
        }
        let inner = install();
        slot.inner = Some(inner);
        Ok(CrashHandler)
    }

    /// Detaches the handler, handing back what was installed so that
    /// dropping it restores the previously registered handlers.
    pub fn detach<T>(self, slot: &mut HandlerSlot<T>) -> (t: Option<T>)
        ensures
            (t, final(slot)@) == spec_detach_slot(old(slot)@),
    {
        slot.inner.take()
    }

    /// The exception code that a simulated exception carries: the given one,
    /// or `STATUS_NONCONTINUABLE_EXCEPTION` when none is given.
    pub fn simulated_exception_code(exception_code: Option<i32>) -> (c: i32)
        ensures
            c == match exception_code {
                Some(code) => code,
                None => codes::STATUS_NONCONTINUABLE_EXCEPTION,
            },
    {
        match exception_code {
            Some(code) => code,
            None => codes::STATUS_NONCONTINUABLE_EXCEPTION,
        }
    }

    /// The result of simulating an exception: when no handler is attached
    /// (`user_result` is `None`) the user is not consulted and the exception
    /// counts as unhandled, otherwise the user's answer is the result.
    pub fn simulate_exception_result(user_result: Option<CrashEventResult>) -> (r: CrashEventResult)
        ensures
            r == match user_result {
                Some(u) => u,
                None => CrashEventResult::Handled(false),
            },
    {
        match user_result {
            Some(u) => u,
            None => CrashEventResult::Handled(false),
        }
    }
}

/// What the unhandled exception filter does once the user has (or has not)
/// been consulted.
#[derive(Copy, Clone, Debug, PartialEq, Eq, Structural)]
pub enum FilterAction {
    /// Return `EXCEPTION_EXECUTE_HANDLER`: the exception was fully handled.
    ExecuteHandler,
    /// Hand the exception to the previously registered filter and return
    /// what it returns.
    CallPreviousFilter,
    /// Return `EXCEPTION_CONTINUE_SEARCH`.
    ContinueSearch,
    /// Jump back to the given jump buffer with the given value.
    Jump { jmp_buf: usize, value: i32 },
}

/// The exception filter's decision. `user_result` is `None` when no handler
/// is attached, in which case the user is not consulted.
pub fn exception_filter_action(user_result: Option<CrashEventResult>, has_previous_filter: bool) -> (a:
    FilterAction)
    ensures
        a == match user_result {
            None => FilterAction::ContinueSearch,
            Some(CrashEventResult::Handled(true)) => FilterAction::ExecuteHandler,
            Some(CrashEventResult::Handled(false)) => if has_previous_filter {
                FilterAction::CallPreviousFilter
            } else {
                FilterAction::ContinueSearch
            },
            Some(CrashEventResult::Jump { jmp_buf, value }) => FilterAction::Jump { jmp_buf, value },
        },
{
    match user_result {
        None => FilterAction::ContinueSearch,
        Some(CrashEventResult::Handled(true)) => FilterAction::ExecuteHandler,
        Some(CrashEventResult::Handled(false)) => if has_previous_filter {
            FilterAction::CallPreviousFilter
        } else {
            FilterAction::ContinueSearch
        },
        Some(CrashEventResult::Jump { jmp_buf, value }) => FilterAction::Jump { jmp_buf, value },
    }
}

/// The value the exception filter returns for an action that returns
/// directly (`None` for the actions that hand over control elsewhere).
pub fn filter_return_value(a: FilterAction) -> (v: Option<i32>)
    ensures
        v == match a {
            FilterAction::ExecuteHandler => Some(EXCEPTION_EXECUTE_HANDLER),
            FilterAction::ContinueSearch => Some(EXCEPTION_CONTINUE_SEARCH),
            _ => None::<i32>,
        },
{
    match a {
        FilterAction::ExecuteHandler => Some(EXCEPTION_EXECUTE_HANDLER),
        FilterAction::ContinueSearch => Some(EXCEPTION_CONTINUE_SEARCH),
        _ => None,
    }
}

/// What the invalid parameter handler does once the user has (or has not)
/// been consulted.
#[derive(Copy, Clone, Debug, PartialEq, Eq, Structural)]
pub enum InvalidParameterAction {
    /// Return to the CRT: the user handled it.
    Return,
    /// Call the previously registered invalid parameter handler, then exit
    /// the process with code 0.
    CallPreviousThenExit,
    /// Invoke Watson (`_invoke_watson`), which does not return.
    InvokeWatson,
    /// Jump back to the given jump buffer with the given value.
    Jump { jmp_buf: usize, value: i32 },
}

/// The invalid parameter handler's decision. `user_result` is `None` when no
/// handler is attached.
pub fn invalid_parameter_action(user_result: Option<CrashEventResult>, has_previous: bool) -> (a:
    InvalidParameterAction)
    ensures
        a == match user_result {
            None => InvalidParameterAction::InvokeWatson,
            Some(CrashEventResult::Handled(true)) => InvalidParameterAction::Return,
            Some(CrashEventResult::Handled(false)) => if has_previous {
                InvalidParameterAction::CallPreviousThenExit
            } else {
                InvalidParameterAction::InvokeWatson
            },
            Some(CrashEventResult::Jump { jmp_buf, value }) => InvalidParameterAction::Jump {
                jmp_buf,
                value,
            },
        },
{
    match user_result {
        None => InvalidParameterAction::InvokeWatson,
        Some(CrashEventResult::Handled(true)) => InvalidParameterAction::Return,
        Some(CrashEventResult::Handled(false)) => if has_previous {
            InvalidParameterAction::CallPreviousThenExit
        } else {
            InvalidParameterAction::InvokeWatson
        },
        Some(CrashEventResult::Jump { jmp_buf, value }) => InvalidParameterAction::Jump {
            jmp_buf,
            value,
        },
    }
}

/// What the pure virtual call handler does once the user has (or has not)
/// been consulted.
#[derive(Copy, Clone, Debug, PartialEq, Eq, Structural)]
pub enum PurecallAction {
    /// Return, letting `_purecall` carry on with its default behavior.
    Return,
    /// Exit the process with code 0: the user handled it.
    Exit,
    /// Call the previously registered purecall handler, then return.
    CallPreviousThenReturn,
    /// Jump back to the given jump buffer with the given value.
    Jump { jmp_buf: usize, value: i32 },
}

/// The pure virtual call handler's decision. `user_result` is `None` when no
/// handler is attached.
pub fn pure_virtual_call_action(user_result: Option<CrashEventResult>, has_previous: bool) -> (a:
    PurecallAction)
    ensures
        a == match user_result {
            None => PurecallAction::Return,
            Some(CrashEventResult::Handled(true)) => PurecallAction::Exit,
            Some(CrashEventResult::Handled(false)) => if has_previous {
                PurecallAction::CallPreviousThenReturn
            } else {
                PurecallAction::Return
            },
            Some(CrashEventResult::Jump { jmp_buf, value }) => PurecallAction::Jump { jmp_buf, value },
        },
{
    match user_result {
        None => PurecallAction::Return,
        Some(CrashEventResult::Handled(true)) => PurecallAction::Exit,
        Some(CrashEventResult::Handled(false)) => if has_previous {
            PurecallAction::CallPreviousThenReturn
        } else {
            PurecallAction::Return
        },
        Some(CrashEventResult::Jump { jmp_buf, value }) => PurecallAction::Jump { jmp_buf, value },
    }
}

/// Whether attaching succeeds on a slot in the given state: exactly when no
/// handler is installed.
pub open spec fn spec_attach_succeeds<T>(slot: Option<T>) -> bool {
    slot is None
}

/// The slot after an attach that installed `installed`: filled when it was
/// empty, unchanged otherwise.
pub open spec fn spec_attach_slot<T>(before: Option<T>, installed: T) -> Option<T> {
    if before is None {
        Some(installed)
    } else {
        before
    }
}

/// What a detach hands back (what the attach installed, holding the
/// process-wide handlers that were registered before it), and the slot
/// after it: empty.
pub open spec fn spec_detach_slot<T>(before: Option<T>) -> (Option<T>, Option<T>) {
    (before, None)
}

/// Attaching to an empty slot and then detaching is the identity: the
/// detach hands back exactly what the attach installed, which holds the
/// process-wide handlers registered before the attach (dropping it puts
/// them back), no handler is attached afterwards, and a further attach
/// succeeds.
pub proof fn lemma_attach_then_detach<T>(installed: T)
    ensures
        spec_attach_succeeds::<T>(None),
        spec_detach_slot(spec_attach_slot(None, installed)).0 == Some(installed),
        spec_detach_slot(spec_attach_slot(None, installed)).1 is None,
        spec_attach_succeeds(spec_detach_slot(spec_attach_slot(None, installed)).1),
{
}

/// Only one handler is registered at any one time: once an attach has
/// succeeded, a second attach fails, and after a detach an attach succeeds
/// again.
pub proof fn lemma_one_handler_at_a_time<T>(installed: T)
    ensures
        spec_attach_succeeds::<T>(None),
        !spec_attach_succeeds(Some(installed)),
{
}

} // verus!
