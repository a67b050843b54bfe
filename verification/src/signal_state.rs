//! The process-wide signal state on Linux: the alternate signal stack that
//! lets a stack overflow be handled, the signal dispositions that the
//! handlers replace, and the decisions taken inside the signal handler.
//!
//! The system calls are made by the caller; these functions decide which
//! calls to make and with what values.
use vstd::prelude::*;

verus! {

/// `SIGHUP` on Linux.
pub const SIGHUP: i32 = 1;
/// `SIGINT` on Linux.
pub const SIGINT: i32 = 2;
/// `SIGQUIT` on Linux.
pub const SIGQUIT: i32 = 3;
/// `SIGILL` on Linux.
pub const SIGILL: i32 = 4;
/// `SIGTRAP` on Linux.
pub const SIGTRAP: i32 = 5;
/// `SIGABRT` on Linux.
pub const SIGABRT: i32 = 6;
/// `SIGBUS` on Linux.
pub const SIGBUS: i32 = 7;
/// `SIGFPE` on Linux.
pub const SIGFPE: i32 = 8;
/// `SIGKILL` on Linux.
pub const SIGKILL: i32 = 9;
/// `SIGSEGV` on Linux.
pub const SIGSEGV: i32 = 11;
/// `SIGPIPE` on Linux.
pub const SIGPIPE: i32 = 13;
/// `SIGALRM` on Linux.
pub const SIGALRM: i32 = 14;
/// `SIGTERM` on Linux.
pub const SIGTERM: i32 = 15;

/// `SS_DISABLE`: the alternate signal stack is disabled.
pub const SS_DISABLE: i32 = 2;
/// `SA_SIGINFO`: the handler takes the signal information and context.
pub const SA_SIGINFO: i32 = 4;
/// `SA_ONSTACK`: the handler runs on the alternate signal stack.
pub const SA_ONSTACK: i32 = 0x0800_0000;

/// `si_code` of a signal sent by `kill`.
pub const SI_USER: i32 = 0;
/// `si_code` of a signal sent by `tkill` or `tgkill`.
pub const SI_TKILL: i32 = -6;

/// The size of the alternate signal stack that is installed when the thread
/// has none, or one that is too small.
pub const MIN_STACK_SIZE: usize = 16384;

/// The signals that are handled, in the order their previous dispositions
/// are saved and restored.
pub open spec fn spec_exception_signals() -> Seq<i32> {
    seq![SIGSEGV, SIGABRT, SIGFPE, SIGILL, SIGBUS, SIGTRAP]
}

/// The signals that are handled: `SIGSEGV`, `SIGABRT`, `SIGFPE`, `SIGILL`,
/// `SIGBUS` and `SIGTRAP`. While one of them is handled, all of them are
/// masked.
pub fn exception_signals() -> (s: [i32; 6])
    ensures
        s@ == spec_exception_signals(),
{
    let s = [SIGSEGV, SIGABRT, SIGFPE, SIGILL, SIGBUS, SIGTRAP];
    assert(s@ =~= spec_exception_signals());
    s
}

/// The flags the handlers are installed with: run on the alternate stack and
/// receive the signal information.
pub fn handler_flags() -> (f: i32)
    ensures
        f == SA_ONSTACK | SA_SIGINFO,
{
    SA_ONSTACK | SA_SIGINFO
}

/// A signal stack (`stack_t`): its base address, flags and size.
#[derive(Copy, Clone, Debug, PartialEq, Eq, Structural)]
pub struct StackInfo {
    pub sp: usize,
    pub flags: i32,
    pub size: usize,
}

/// Whether the thread's current alternate stack can be used as it is: it is
/// enabled and at least [`MIN_STACK_SIZE`] bytes large.
pub open spec fn spec_stack_suffices(old: StackInfo) -> bool {
    old.flags & SS_DISABLE == 0 && old.size >= MIN_STACK_SIZE
}

/// Whether the thread's current alternate stack can be used as it is, in
/// which case no stack is allocated.
pub fn existing_stack_suffices(old: StackInfo) -> (b: bool)
    ensures
        b == spec_stack_suffices(old),
{
    old.flags & SS_DISABLE == 0 && old.size >= MIN_STACK_SIZE
}

/// How the memory of a new alternate stack is laid out: one guard page
/// without access, followed by the stack itself.
#[derive(Copy, Clone, Debug, PartialEq, Eq, Structural)]
pub struct AltStackLayout {
    /// The size of the mapping to make.
    pub alloc_size: usize,
    /// The size of the inaccessible guard area at its start.
    pub guard_size: usize,
}

/// The layout of a new alternate stack on a system with the given page size.
pub fn alt_stack_layout(page_size: usize) -> (l: AltStackLayout)
    requires
        page_size + MIN_STACK_SIZE <= usize::MAX,
    ensures
        l.guard_size == page_size,
        l.alloc_size == page_size + MIN_STACK_SIZE,
{
    AltStackLayout { alloc_size: page_size + MIN_STACK_SIZE, guard_size: page_size }
}

/// The alternate stack that lives in a mapping made with `layout` at address
/// `mapping`: it starts past the guard area and spans [`MIN_STACK_SIZE`]
/// bytes, enabled.
pub fn new_alt_stack(mapping: usize, layout: AltStackLayout) -> (s: StackInfo)
    requires
        mapping + layout.guard_size <= usize::MAX,
    ensures
        s == (StackInfo { sp: (mapping + layout.guard_size) as usize, flags: 0, size: MIN_STACK_SIZE }),
{
    StackInfo { sp: mapping + layout.guard_size, flags: 0, size: MIN_STACK_SIZE }
}

/// What is remembered of an installed alternate stack, to undo it later.
#[derive(Copy, Clone, Debug, PartialEq, Eq, Structural)]
pub struct StackSave {
    /// The stack to reinstall, if any.
    pub old: Option<StackInfo>,
    /// The stack that was installed.
    pub new: StackInfo,
    /// The start of the mapping that holds the installed stack and its
    /// guard area, released with it.
    pub map_start: usize,
    /// The size of that mapping.
    pub map_size: usize,
}

/// What is remembered after installing `new` in place of `old`: the old
/// stack is kept, to be put back, when there was one (it was enabled, but
/// too small); a disabled old stack is not kept, and restoring disables the
/// alternate stack again. `new` lives in the mapping made with `layout` at
/// `mapping`, which is released as a whole when the stack is restored.
pub fn stack_save(old: StackInfo, new: StackInfo, mapping: usize, layout: AltStackLayout) -> (s:
    StackSave)
    ensures
        s == spec_stack_save(old, new, mapping, layout),
{
    StackSave { old: if old.flags & SS_DISABLE == 0 {
        Some(old)
    } else {
        None
    }, new, map_start: mapping, map_size: layout.alloc_size }
}

/// A stack description that disables the alternate signal stack.
pub fn disabled_stack() -> (s: StackInfo)
    ensures
        s == (StackInfo { sp: 0, flags: SS_DISABLE, size: 0 }),
{
    StackInfo { sp: 0, flags: SS_DISABLE, size: 0 }
}

/// The first step of restoring the alternate stack.
#[derive(Copy, Clone, Debug, PartialEq, Eq, Structural)]
pub enum RestoreStep {
    /// Install this stack in place of ours, then unmap ours.
    Install(StackInfo),
    /// Another stack has replaced ours in the meantime: leave it, only unmap
    /// ours.
    UnmapOnly,
}

/// The first step of restoring the alternate stack, given what was saved and
/// the stack that is current: our stack is replaced (by the saved one, or by
/// a disabled one when none was saved) only if it is still the current one.
/// If that replacement fails, nothing more is done.
pub fn restore_step(save: StackSave, current: StackInfo) -> (r: RestoreStep)
    ensures
        r == spec_restore_step(save, current),
{
    if current.sp == save.new.sp {
        match save.old {
            Some(o) => RestoreStep::Install(o),
            None => RestoreStep::Install(disabled_stack()),
        }
    } else {
        RestoreStep::UnmapOnly
    }
}

/// The spec of [`stack_save`].
pub open spec fn spec_stack_save(
    old: StackInfo,
    new: StackInfo,
    mapping: usize,
    layout: AltStackLayout,
) -> StackSave {
    StackSave {
        old: if old.flags & SS_DISABLE == 0 {
            Some(old)
        } else {
            None::<StackInfo>
        },
        new,
        map_start: mapping,
        map_size: layout.alloc_size,
    }
}

/// The spec of [`restore_step`].
pub open spec fn spec_restore_step(save: StackSave, current: StackInfo) -> RestoreStep {
    if current.sp == save.new.sp {
        RestoreStep::Install(
            match save.old {
                Some(o) => o,
                None => StackInfo { sp: 0, flags: SS_DISABLE, size: 0 },
            },
        )
    } else {
        RestoreStep::UnmapOnly
    }
}

/// Installing our alternate stack and restoring it while ours is still
/// current brings the alternate stack back to what it was: the previous
/// stack is put back when there was one, and the alternate stack is
/// disabled again when it was disabled.
pub proof fn lemma_alt_stack_roundtrip(
    old: StackInfo,
    new: StackInfo,
    mapping: usize,
    layout: AltStackLayout,
)
    ensures
        old.flags & SS_DISABLE == 0 ==> spec_restore_step(
            spec_stack_save(old, new, mapping, layout),
            new,
        ) == RestoreStep::Install(old),
        old.flags & SS_DISABLE != 0 ==> spec_restore_step(
            spec_stack_save(old, new, mapping, layout),
            new,
        ) == RestoreStep::Install(StackInfo { sp: 0, flags: SS_DISABLE, size: 0 }),
{
}

/// The size of the alternate stack installed on every new thread: the
/// larger of `SIGSTKSZ` and 16 KiB.
pub fn get_stack_size(sigstksz: usize) -> (s: usize)
    ensures
        s == if sigstksz > 16384 {
            sigstksz
        } else {
            16384
        },
        s >= sigstksz,
        s >= 16384,
{
    if sigstksz > 16 * 1024 {
        sigstksz
    } else {
        16 * 1024
    }
}

/// Whether our handler has lost its `SA_SIGINFO` flag (some other code saved
/// and restored it with `signal` instead of `sigaction`). Its arguments are
/// then bogus: the handler must be reinstalled with the right flags and the
/// signal left to be raised again.
pub fn lost_siginfo(current_is_ours: bool, current_flags: i32) -> (b: bool)
    ensures
        b == (current_is_ours && current_flags & SA_SIGINFO == 0),
{
    current_is_ours && current_flags & SA_SIGINFO == 0
}

/// What the signal handler does to the signal's disposition once the
/// attached handlers have seen the signal.
#[derive(Copy, Clone, Debug, PartialEq, Eq, Structural)]
pub enum AfterSignal {
    /// One handler handled it: install the default disposition, so that the
    /// signal, once raised again, terminates the process.
    InstallDefault,
    /// No handler handled it: restore the previous dispositions, so that the
    /// signal, once raised again, is delivered to them.
    RestorePrevious,
}

/// What the signal handler does to the signal's disposition.
pub fn after_signal(handled: bool) -> (a: AfterSignal)
    ensures
        a == if handled {
            AfterSignal::InstallDefault
        } else {
            AfterSignal::RestorePrevious
        },
{
    if handled {
        AfterSignal::InstallDefault
    } else {
        AfterSignal::RestorePrevious
    }
}

/// Whether the signal has to be raised again explicitly when the handler
/// returns: it was sent by somebody (`si_code <= 0`), or it is `SIGABRT`. A
/// signal raised by a hard fault triggers again by itself.
pub fn must_reraise(si_code: i32, sig: i32) -> (b: bool)
    ensures
        b == (si_code <= 0 || sig == SIGABRT),
{
    si_code <= 0 || sig == SIGABRT
}

/// Whether the signal is trusted, in which case the process allows itself to
/// be dumped: it was raised by the kernel (`si_code > 0`), or sent by this
/// very process with `kill`, `tkill` or `tgkill`.
pub fn is_trusted_signal(si_code: i32, sender_pid: u32, own_pid: u32) -> (b: bool)
    ensures
        b == (si_code > 0 || ((si_code == SI_USER || si_code == SI_TKILL) && sender_pid
            == own_pid)),
{
    si_code > 0 || ((si_code == SI_USER || si_code == SI_TKILL) && sender_pid == own_pid)
}

/// How our handler is installed for the handled signals: the signals, the
/// signals masked while one of them is handled (all of them), and the flags.
#[derive(Copy, Clone, Debug)]
pub struct InstallPlan {
    pub signals: [i32; 6],
    pub mask: [i32; 6],
    pub flags: i32,
}

/// The plan every install follows: our handler for each handled signal,
/// with all handled signals masked, on the alternate stack and with the
/// signal information.
pub open spec fn spec_install_plan(p: InstallPlan) -> bool {
    &&& p.signals@ == spec_exception_signals()
    &&& p.mask@ == spec_exception_signals()
    &&& p.flags == SA_ONSTACK | SA_SIGINFO
}

/// The plan every install follows.
pub fn install_plan() -> (p: InstallPlan)
    ensures
        spec_install_plan(p),
{
    InstallPlan { signals: exception_signals(), mask: exception_signals(), flags: handler_flags() }
}

/// The saved actions after an install that queried `queried`: the first
/// saved actions stay; otherwise the queried ones are saved, if the query
/// succeeded.
pub open spec fn spec_record_actions<A>(saved: Option<A>, queried: Option<A>) -> Option<A> {
    if saved is Some {
        saved
    } else {
        queried
    }
}

/// The signal actions that were in place before our handlers were
/// installed (`A` holds those of the six handled signals), kept until the
/// last handler is detached.
pub struct SavedActions<A> {
    saved: Option<A>,
}

impl<A> View for SavedActions<A> {
    type V = Option<A>;

    closed spec fn view(&self) -> Option<A> {
        self.saved
    }
}

impl<A> SavedActions<A> {
    /// Nothing saved: our handlers are not installed.
    pub fn new() -> (s: Self)
        ensures
            s@ is None,
    {
        SavedActions { saved: None }
    }

    /// Whether actions are saved, in which case our handlers are installed
    /// and a further install changes nothing.
    pub fn is_saved(&self) -> (b: bool)
        ensures
            b <==> self@ is Some,
    {
        self.saved.is_some()
    }

    /// Records an install. When actions are saved already, nothing changes
    /// and nothing is to be installed. Otherwise, when the previous actions
    /// of all handled signals could be queried (`queried`), they are saved
    /// and the returned plan is to be installed; when the query failed,
    /// nothing changes and nothing is installed.
    pub fn record(&mut self, queried: Option<A>) -> (plan: Option<InstallPlan>)
        ensures
            final(self)@ == spec_record_actions(old(self)@, queried),
            plan is Some <==> (old(self)@ is None && queried is Some),
            plan matches Some(p) ==> spec_install_plan(p),
    {
        if self.saved.is_some() {
            return None;
        }
        match queried {
            None => None,
            Some(a) => {
                self.saved = Some(a);
                Some(install_plan())
            },
        }
    }

    /// Hands back the saved actions, to be put back (each signal whose
    /// action cannot be put back gets the default disposition), and forgets
    /// them.
    pub fn take(&mut self) -> (r: Option<A>)
        ensures
            r == old(self)@,
            final(self)@ is None,
    {
        self.saved.take()
    }
}

/// Installing an alternate stack failed: its memory could not be mapped.
#[derive(Copy, Clone, Debug, PartialEq, Eq, Structural)]
pub enum AltStackError {
    OutOfMemory,
}

/// What installing the alternate stack starts with.
#[derive(Copy, Clone, Debug, PartialEq, Eq, Structural)]
pub enum AltStackPlan {
    /// The current alternate stack suffices: nothing is installed.
    Keep,
    /// A new stack is to be mapped with this layout.
    MapNew(AltStackLayout),
}

/// What installing the alternate stack starts with, given the current one
/// and the page size.
pub fn plan_alt_stack(current: StackInfo, page_size: usize) -> (p: AltStackPlan)
    requires
        page_size + MIN_STACK_SIZE <= usize::MAX,
    ensures
        p == if spec_stack_suffices(current) {
            AltStackPlan::Keep
        } else {
            AltStackPlan::MapNew(
                AltStackLayout { alloc_size: (page_size + MIN_STACK_SIZE) as usize, guard_size: page_size },
            )
        },
{
    if existing_stack_suffices(current) {
        AltStackPlan::Keep
    } else {
        AltStackPlan::MapNew(alt_stack_layout(page_size))
    }
}

/// The stack that lives in the mapping made with `layout` at `mapping`.
pub open spec fn spec_new_alt_stack(mapping: usize, layout: AltStackLayout) -> StackInfo {
    StackInfo { sp: (mapping + layout.guard_size) as usize, flags: 0, size: MIN_STACK_SIZE }
}

/// The restore after installing, given the saved stack and the current one
/// (`None` when it cannot be queried).
pub open spec fn spec_restore_plan(save: Option<StackSave>, current: Option<StackInfo>) -> Option<
    RestoreStep,
> {
    match save {
        None => None,
        Some(s) => match current {
            None => None,
            Some(c) => Some(spec_restore_step(s, c)),
        },
    }
}

/// The alternate stack installed by the first handler, kept until the last
/// handler is detached.
pub struct AltStackState {
    save: Option<StackSave>,
}

impl View for AltStackState {
    type V = Option<StackSave>;

    closed spec fn view(&self) -> Option<StackSave> {
        self.save
    }
}

impl AltStackState {
    /// No stack installed.
    pub fn new() -> (s: Self)
        ensures
            s@ is None,
    {
        AltStackState { save: None }
    }

    /// Records the mapping attempt of an [`AltStackPlan::MapNew`] made while
    /// `current` was the alternate stack: a failed mapping (`None`) is
    /// [`AltStackError::OutOfMemory`] and changes nothing; otherwise the new
    /// stack, to be made readable and writable and registered, is returned
    /// and remembered with `current` and the mapping.
    pub fn record_mapping(
        &mut self,
        current: StackInfo,
        mapping: Option<usize>,
        layout: AltStackLayout,
    ) -> (r: Result<StackInfo, AltStackError>)
        requires
            mapping matches Some(m) ==> m + layout.guard_size <= usize::MAX,
        ensures
            mapping is None ==> r == Err::<StackInfo, AltStackError>(AltStackError::OutOfMemory)
                && final(self)@ == old(self)@,
            mapping matches Some(m) ==> r == Ok::<StackInfo, AltStackError>(
                spec_new_alt_stack(m, layout),
            ) && final(self)@ == Some(
                spec_stack_save(current, spec_new_alt_stack(m, layout), m, layout),
            ),
    {
        match mapping {
            None => Err(AltStackError::OutOfMemory),
            Some(m) => {
                let new = new_alt_stack(m, layout);
                self.save = Some(stack_save(current, new, m, layout));
                Ok(new)
            },
        }
    }

    /// The first step of a restore, given the current alternate stack
    /// (`None` when it cannot be queried): nothing (`None`) when no stack is
    /// remembered or the query failed, else the [`restore_step`]. When that
    /// step is an install that fails, the restore stops there.
    pub fn restore_plan(&self, current: Option<StackInfo>) -> (r: Option<RestoreStep>)
        ensures
            r == spec_restore_plan(self@, current),
    {
        match self.save {
            None => None,
            Some(s) => match current {
                None => None,
                Some(c) => Some(restore_step(s, c)),
            },
        }
    }

    /// Ends a restore: the whole mapping of the remembered stack (guard
    /// area and stack) is to be unmapped, and the stack is forgotten.
    pub fn finish_restore(&mut self) -> (r: Option<(usize, usize)>)
        ensures
            r == match old(self)@ {
                Some(s) => Some((s.map_start, s.map_size)),
                None => None,
            },
            final(self)@ is None,
    {
        match self.save.take() {
            Some(s) => Some((s.map_start, s.map_size)),
            None => None,
        }
    }
}

/// Mapping an alternate stack and restoring it while it is still the
/// current one: the restore puts the previous stack back (or disables the
/// alternate stack when it was disabled), releases the whole mapping, and
/// leaves nothing remembered.
pub proof fn lemma_install_restore_alt_stack(
    before: Option<StackSave>,
    current: StackInfo,
    mapping: usize,
    layout: AltStackLayout,
)
    ensures
        ({
            let new = spec_new_alt_stack(mapping, layout);
            let save = spec_stack_save(current, new, mapping, layout);
            &&& spec_restore_plan(Some(save), Some(new)) == Some(
                RestoreStep::Install(
                    if current.flags & SS_DISABLE == 0 {
                        current
                    } else {
                        StackInfo { sp: 0, flags: SS_DISABLE, size: 0 }
                    },
                ),
            )
            &&& (save.map_start, save.map_size) == (mapping, layout.alloc_size)
        }),
{
}

/// What the signal handler does first.
#[derive(Copy, Clone, Debug, PartialEq, Eq, Structural)]
pub enum HandlerEntry {
    /// Our handler lost `SA_SIGINFO`, so the handler's arguments are bogus:
    /// reinstall it for `signal` with only `mask_signal` masked and these
    /// flags (the default disposition if that fails), then return without
    /// consulting any handler or raising the signal again; the kernel
    /// delivers it again with valid arguments.
    Reinstall { signal: i32, mask_signal: i32, flags: i32 },
    /// Offer the signal to the attached handlers.
    Dispatch,
}

/// What the signal handler does first, given the signal and the action
/// currently installed for it (whether it is our handler, and its flags),
/// `None` when it cannot be queried.
pub fn signal_entry(sig: i32, current: Option<(bool, i32)>) -> (e: HandlerEntry)
    ensures
        e == match current {
            Some((ours, flags)) => if ours && flags & SA_SIGINFO == 0 {
                HandlerEntry::Reinstall {
                    signal: sig,
                    mask_signal: sig,
                    flags: SA_ONSTACK | SA_SIGINFO,
                }
            } else {
                HandlerEntry::Dispatch
            },
            None => HandlerEntry::Dispatch,
        },
{
    match current {
        Some((ours, flags)) => if lost_siginfo(ours, flags) {
            HandlerEntry::Reinstall { signal: sig, mask_signal: sig, flags: handler_flags() }
        } else {
            HandlerEntry::Dispatch
        },
        None => HandlerEntry::Dispatch,
    }
}

/// Whether the default disposition is installed after reinstalling our
/// handler: exactly when the reinstall failed.
pub fn reinstall_fallback(reinstalled: bool) -> (install_default: bool)
    ensures
        install_default == !reinstalled,
{
    !reinstalled
}

} // verus!
