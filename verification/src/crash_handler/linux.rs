//! Linux: crash handlers are kept on a stack; the signal handlers and the
//! alternate signal stack are installed with the first one and restored when
//! the last one is detached.
use vstd::prelude::*;
use crate::signal_state as ss;
use crate::stack::{DetachOutcome, HandlerStack, spec_detach_outcome};

verus! {

/// The signals a crash handler deals with.
#[derive(Copy, Clone, Debug, PartialEq, Eq, Structural)]
pub enum Signal {
    Hup,
    Int,
    Quit,
    Ill,
    Trap,
    Abort,
    Bus,
    Fpe,
    Kill,
    Segv,
    Pipe,
    Alarm,
    Term,
}

impl Signal {
    /// The signal number the variant stands for.
    pub open spec fn spec_number(self) -> i32 {
        match self {
            Signal::Hup => ss::SIGHUP,
            Signal::Int => ss::SIGINT,
            Signal::Quit => ss::SIGQUIT,
            Signal::Ill => ss::SIGILL,
            Signal::Trap => ss::SIGTRAP,
            Signal::Abort => ss::SIGABRT,
            Signal::Bus => ss::SIGBUS,
            Signal::Fpe => ss::SIGFPE,
            Signal::Kill => ss::SIGKILL,
            Signal::Segv => ss::SIGSEGV,
            Signal::Pipe => ss::SIGPIPE,
            Signal::Alarm => ss::SIGALRM,
            Signal::Term => ss::SIGTERM,
        }
    }

    /// The signal number the variant stands for.
    pub fn number(self) -> (n: i32)
        ensures
            n == self.spec_number(),
    {
        match self {
            Signal::Hup => ss::SIGHUP,
            Signal::Int => ss::SIGINT,
            Signal::Quit => ss::SIGQUIT,
            Signal::Ill => ss::SIGILL,
            Signal::Trap => ss::SIGTRAP,
            Signal::Abort => ss::SIGABRT,
            Signal::Bus => ss::SIGBUS,
            Signal::Fpe => ss::SIGFPE,
            Signal::Kill => ss::SIGKILL,
            Signal::Segv => ss::SIGSEGV,
            Signal::Pipe => ss::SIGPIPE,
            Signal::Alarm => ss::SIGALRM,
            Signal::Term => ss::SIGTERM,
        }
    }
}

/// An attached handler, known on the handler stack by its identity. Both
/// the crash handler and the exception handler flavors use it; each reports
/// a failure to set up the alternate signal stack with its own error type.
pub struct ExceptionHandler {
    id: usize,
}

impl ExceptionHandler {
    /// The identity under which the handler stands on the stack.
    pub closed spec fn id(&self) -> usize {
        self.id
    }

    /// Attaches the handler known as `id`. `altstack` is the outcome of
    /// installing the alternate signal stack, which comes first; `queried`
    /// the previous actions of the handled signals (`None` if they could not
    /// be queried). If the alternate stack failed, the attach fails with
    /// [`ss::AltStackError::OutOfMemory`] and neither the stack nor the
    /// saved actions change, so no signal action is touched. Otherwise the
    /// handler goes on top of the stack and the install is recorded: the
    /// returned plan, if any, is to be installed for the handled signals
    /// (only the first install saves actions and installs; later ones change
    /// nothing). Several handlers can be attached at once.
    pub fn attach<A>(
        stack: &mut HandlerStack,
        actions: &mut ss::SavedActions<A>,
        id: usize,
        altstack: Result<(), ss::AltStackError>,
        queried: Option<A>,
    ) -> (r: Result<(Self, Option<ss::InstallPlan>), ss::AltStackError>)
        requires
            old(stack).wf(),
            !old(stack)@.contains(id),
        ensures
            final(stack).wf(),
            altstack is Err ==> r == Err::<(Self, Option<ss::InstallPlan>), ss::AltStackError>(
                ss::AltStackError::OutOfMemory,
            ) && final(stack)@ == old(stack)@ && final(actions)@ == old(actions)@,
            altstack is Ok ==> final(stack)@ == old(stack)@.push(id) && final(actions)@
                == ss::spec_record_actions(old(actions)@, queried) && (r matches Ok((h, plan))
                && h.id() == id && (plan is Some <==> (old(actions)@ is None && queried is Some))
                && (plan matches Some(p) ==> ss::spec_install_plan(p))),
    {
        match altstack {
            Err(_) => Err(ss::AltStackError::OutOfMemory),
            Ok(()) => {
                let plan = actions.record(queried);
                stack.push(id);
                Ok((ExceptionHandler { id }, plan))
            },
        }
    }

    /// Detaches this handler, removing it from the handler stack. When it
    /// was the last one, the alternate stack is to be restored and the saved
    /// actions are handed back, to be put back, and forgotten; otherwise the
    /// saved actions stay and nothing is handed back.
    pub fn detach<A>(self, stack: &mut HandlerStack, actions: &mut ss::SavedActions<A>) -> (r: (
        DetachOutcome,
        Option<A>,
    ))
        requires
            old(stack).wf(),
        ensures
            final(stack).wf(),
            final(stack)@ == old(stack)@.remove_value(self.id()),
            r.0 == spec_detach_outcome(old(stack)@, self.id()),
            (r.1, final(actions)@) == spec_detach_actions(old(stack)@, self.id(), old(actions)@),
    {
        let outcome = self.do_detach(stack);
        if outcome == DetachOutcome::RemovedLast {
            (outcome, actions.take())
        } else {
            (outcome, None)
        }
    }

    /// Removes this handler from the handler stack.
    fn do_detach(&self, stack: &mut HandlerStack) -> (outcome: DetachOutcome)
        requires
            old(stack).wf(),
        ensures
            final(stack).wf(),
            final(stack)@ == old(stack)@.remove_value(self.id()),
            outcome == spec_detach_outcome(old(stack)@, self.id()),
    {
        stack.detach(self.id)
    }

    /// The `si_code` and sender pid of a simulated signal: one sent by this
    /// very process with `kill`, so that it is trusted.
    pub fn simulated_signal_origin(own_pid: u32) -> (r: (i32, u32))
        ensures
            r == (ss::SI_USER, own_pid),
    {
        (ss::SI_USER, own_pid)
    }
}

/// The actions a detach of `id` hands back, and the saved actions after
/// it: all of them, and nothing, when it removes the last handler; nothing,
/// and the saved ones, otherwise.
pub open spec fn spec_detach_actions<A>(before: Seq<usize>, id: usize, saved: Option<A>) -> (
    Option<A>,
    Option<A>,
) {
    if spec_detach_outcome(before, id) == DetachOutcome::RemovedLast {
        (saved, None)
    } else {
        (None, saved)
    }
}

/// Two handlers attached (with the query of the previous actions succeeding
/// at the first attach) and detached, in either order: the first detach
/// hands back nothing, and the last hands back the actions saved by the
/// first attach, whatever the second attach queried, and leaves nothing
/// saved.
pub proof fn lemma_first_saved_actions_restored<A>(
    id1: usize,
    id2: usize,
    first: A,
    second: Option<A>,
)
    requires
        id1 != id2,
    ensures
        ({
            let saved = ss::spec_record_actions(
                ss::spec_record_actions(None, Some(first)),
                second,
            );
            let s = seq![id1, id2];
            &&& saved == Some(first)
            &&& spec_detach_actions(s, id1, saved) == (None::<A>, Some(first))
            &&& spec_detach_actions(s.remove_value(id1), id2, saved) == (Some(first), None::<A>)
            &&& spec_detach_actions(s, id2, saved) == (None::<A>, Some(first))
            &&& spec_detach_actions(s.remove_value(id2), id1, saved) == (Some(first), None::<A>)
        }),
{
    let s = seq![id1, id2];
    assert(s[0] == id1 && s[1] == id2);
    s.index_of_first_ensures(id1);
    s.index_of_first_ensures(id2);
    assert(s.remove(0) =~= seq![id2]);
    assert(s.remove(1) =~= seq![id1]);
    let a = seq![id2];
    let b = seq![id1];
    assert(a[0] == id2);
    assert(b[0] == id1);
    a.index_of_first_ensures(id2);
    b.index_of_first_ensures(id1);
    assert(a.remove(0) =~= Seq::<usize>::empty());
    assert(b.remove(0) =~= Seq::<usize>::empty());
}

} // verus!
