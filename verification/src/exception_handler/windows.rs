//! Windows: exception handlers are kept on a stack. The one on top is
//! consulted when an exception, an invalid parameter or a pure virtual call
//! is caught; while it runs, the handlers that were registered before it are
//! put back.
use vstd::prelude::*;
use super::Error;
use crate::context::windows as codes;
use crate::crash_handler::windows::{FilterAction, EXCEPTION_EXECUTE_HANDLER};
use crate::stack::{DetachOutcome, HandlerStack, spec_detach_outcome};

pub use crate::crash_handler::windows::ExceptionCode;

verus! {

/// Whether debug exceptions (breakpoints, single steps and debug prints) are
/// handed to the user's handler.
#[derive(Copy, Clone, Debug, PartialEq, Eq, Structural)]
pub enum HandleDebugExceptions {
    Yes,
    No,
}

impl From<HandleDebugExceptions> for bool {
    fn from(hde: HandleDebugExceptions) -> (b: bool) {
        hde == HandleDebugExceptions::Yes
    }
}

impl vstd::std_specs::convert::FromSpecImpl<HandleDebugExceptions> for bool {
    open spec fn obeys_from_spec() -> bool {
        true
    }

    open spec fn from_spec(hde: HandleDebugExceptions) -> bool {
        hde == HandleDebugExceptions::Yes
    }
}

/// What an attached handler keeps: whether debug exceptions are handed to
/// the user, and the process-wide handlers (`P`) that were registered when
/// it was attached.
#[derive(Copy, Clone, Debug)]
pub struct HandlerRecord<P> {
    pub handle_debug_exceptions: HandleDebugExceptions,
    pub previous: P,
}

/// What a detach asks to be done to the process-wide handlers.
#[derive(Copy, Clone, Debug)]
pub enum DetachAction<P> {
    /// The handler was not attached: nothing.
    Nothing,
    /// Other handlers remain: set the crate's own handlers again.
    SetOurs,
    /// It was the last handler: put back these handlers, the ones it
    /// recorded when it was attached.
    SetPrevious(P),
}

/// What a detach with the given outcome asks, for a handler that recorded
/// `previous`.
pub open spec fn spec_detach_action<P>(outcome: DetachOutcome, previous: P) -> DetachAction<P> {
    match outcome {
        DetachOutcome::NotAttached => DetachAction::Nothing,
        DetachOutcome::Removed => DetachAction::SetOurs,
        DetachOutcome::RemovedLast => DetachAction::SetPrevious(previous),
    }
}

/// An attached exception handler, known on the handler stack by its
/// identity.
pub struct ExceptionHandler {
    id: usize,
}

impl ExceptionHandler {
    /// The identity under which the handler stands on the stack.
    pub closed spec fn id(&self) -> usize {
        self.id
    }

    /// Attaches the handler known as `id`, whose process-wide handlers (the
    /// unhandled exception filter, the invalid parameter handler and the
    /// purecall handler) have just been installed in place of `previous`.
    /// It goes on top of the stack, and its record keeps `previous` and asks
    /// for debug exceptions to be handed to the user. Attaching always
    /// succeeds.
    pub fn attach<P>(stack: &mut HandlerStack, id: usize, previous: P) -> (r: Result<
        (Self, HandlerRecord<P>),
        Error,
    >)
        requires
            old(stack).wf(),
            !old(stack)@.contains(id),
        ensures
            final(stack).wf(),
            final(stack)@ == old(stack)@.push(id),
            r matches Ok((h, rec)) && h.id() == id && rec == (HandlerRecord {
                handle_debug_exceptions: HandleDebugExceptions::Yes,
                previous,
            }),
    {
        stack.push(id);
        Ok((ExceptionHandler { id }, HandlerRecord { handle_debug_exceptions: HandleDebugExceptions::Yes, previous }))
    }

    /// Detaches this handler, whose record is `record`, removing it from the
    /// handler stack. When other handlers remain, the crate's own
    /// process-wide handlers are to be set again; when it was the last one,
    /// the handlers recorded when it was attached are to be put back; when
    /// it was not attached, nothing is to be done.
    pub fn detach<P>(self, stack: &mut HandlerStack, record: HandlerRecord<P>) -> (a: DetachAction<P>)
        requires
            old(stack).wf(),
        ensures
            final(stack).wf(),
            final(stack)@ == old(stack)@.remove_value(self.id()),
            a == spec_detach_action(spec_detach_outcome(old(stack)@, self.id()), record.previous),
    {
        match self.do_detach(stack) {
            DetachOutcome::NotAttached => DetachAction::Nothing,
            DetachOutcome::Removed => DetachAction::SetOurs,
            DetachOutcome::RemovedLast => DetachAction::SetPrevious(record.previous),
        }
    }

    /// Performs the actual handler deregistration.
    fn do_detach(&self, stack: &mut HandlerStack) -> (outcome: DetachOutcome)
        requires
            old(stack).wf(),
        ensures
            final(stack).wf(),
            final(stack)@ == old(stack)@.remove_value(self.id()),
            outcome == spec_detach_outcome(old(stack)@, self.id()),
    {
        stack.detach(self.id)
    }

    /// Whether simulating an exception counted as handled: the exception
    /// filter returned `EXCEPTION_EXECUTE_HANDLER`.
    pub fn simulation_handled(filter_result: i32) -> (b: bool)
        ensures
            b == (filter_result == EXCEPTION_EXECUTE_HANDLER),
    {
        filter_result == EXCEPTION_EXECUTE_HANDLER
    }
}

/// Whether an exception code is a debug exception: a breakpoint, a single
/// step, or a debug print.
pub open spec fn spec_is_debug_exception(code: i32) -> bool {
    code == codes::EXCEPTION_BREAKPOINT || code == codes::EXCEPTION_SINGLE_STEP || code
        == codes::DBG_PRINTEXCEPTION_C || code == codes::DBG_PRINTEXCEPTION_WIDE_C
}

/// Whether an exception code is a debug exception.
pub fn is_debug_exception(code: i32) -> (b: bool)
    ensures
        b == spec_is_debug_exception(code),
{
    code == codes::EXCEPTION_BREAKPOINT || code == codes::EXCEPTION_SINGLE_STEP || code
        == codes::DBG_PRINTEXCEPTION_C || code == codes::DBG_PRINTEXCEPTION_WIDE_C
}

/// Whether the user's handler is consulted on an exception: debug
/// exceptions are passed over unless the handler asked for them.
pub fn consults_user(handle_debug_exceptions: bool, code: i32) -> (b: bool)
    ensures
        b == (handle_debug_exceptions || !spec_is_debug_exception(code)),
{
    handle_debug_exceptions || !is_debug_exception(code)
}

/// The exception filter's decision, given whether the user was consulted and
/// answered that the exception is handled.
pub fn exception_filter_action(user_handled: bool, has_previous_filter: bool) -> (a: FilterAction)
    ensures
        a == if user_handled {
            FilterAction::ExecuteHandler
        } else if has_previous_filter {
            FilterAction::CallPreviousFilter
        } else {
            FilterAction::ContinueSearch
        },
{
    if user_handled {
        FilterAction::ExecuteHandler
    } else if has_previous_filter {
        FilterAction::CallPreviousFilter
    } else {
        FilterAction::ContinueSearch
    }
}

/// What the invalid parameter handler does after consulting the user.
#[derive(Copy, Clone, Debug, PartialEq, Eq, Structural)]
pub enum InvalidParameterAction {
    /// Return to the CRT: the user handled it.
    Return,
    /// Call the previously registered invalid parameter handler, then exit
    /// the process with code 0.
    CallPreviousThenExit,
    /// Call `_invalid_parameter_noinfo`, then exit the process with code 0.
    NoInfoThenExit,
}

/// The invalid parameter handler's decision.
pub fn invalid_parameter_action(user_handled: bool, has_previous: bool) -> (a:
    InvalidParameterAction)
    ensures
        a == if user_handled {
            InvalidParameterAction::Return
        } else if has_previous {
            InvalidParameterAction::CallPreviousThenExit
        } else {
            InvalidParameterAction::NoInfoThenExit
        },
{
    if user_handled {
        InvalidParameterAction::Return
    } else if has_previous {
        InvalidParameterAction::CallPreviousThenExit
    } else {
        InvalidParameterAction::NoInfoThenExit
    }
}

/// What the pure virtual call handler does after consulting the user.
#[derive(Copy, Clone, Debug, PartialEq, Eq, Structural)]
pub enum PurecallAction {
    /// Exit the process with code 0: the user handled it.
    Exit,
    /// Call the previously registered purecall handler, then exit the
    /// process with code 0.
    CallPreviousThenExit,
    /// Return, letting `_purecall` carry on with its default behavior.
    Return,
}

/// The pure virtual call handler's decision.
pub fn pure_virtual_call_action(user_handled: bool, has_previous: bool) -> (a: PurecallAction)
    ensures
        a == if user_handled {
            PurecallAction::Exit
        } else if has_previous {
            PurecallAction::CallPreviousThenExit
        } else {
            PurecallAction::Return
        },
{
    if user_handled {
        PurecallAction::Exit
    } else if has_previous {
        PurecallAction::CallPreviousThenExit
    } else {
        PurecallAction::Return
    }
}

} // verus!
