//! The stack of attached handlers.
//!
//! Every attached handler is known by a distinct identity (the address of its
//! shared state). Attaching pushes the identity, detaching removes it wherever
//! it stands. On Linux a signal is offered to the handlers from the bottom
//! up; on Windows the handler on top, the most recently attached, answers.
use vstd::prelude::*;

verus! {

/// What detaching a handler did to the stack.
#[derive(Copy, Clone, Debug, PartialEq, Eq, Structural)]
pub enum DetachOutcome {
    /// The handler was not on the stack; nothing changed.
    NotAttached,
    /// The handler was removed and other handlers remain attached.
    Removed,
    /// The handler was removed and it was the last one: the process-wide
    /// state that the attached handlers rely on is to be undone (on Linux
    /// the signal actions saved by the first attach and the alternate stack;
    /// on Windows the handlers recorded by the handler removed).
    RemovedLast,
}

/// The stack of attached handler identities, bottom first.
pub struct HandlerStack {
    ids: Vec<usize>,
}

impl View for HandlerStack {
    type V = Seq<usize>;

    closed spec fn view(&self) -> Seq<usize> {
        self.ids@
    }
}

/// The outcome of detaching `id` from a stack that held `before`.
pub open spec fn spec_detach_outcome(before: Seq<usize>, id: usize) -> DetachOutcome {
    if !before.contains(id) {
        DetachOutcome::NotAttached
    } else if before.remove_value(id).len() == 0 {
        DetachOutcome::RemovedLast
    } else {
        DetachOutcome::Removed
    }
}

impl HandlerStack {
    /// The stack is well formed: no identity occurs twice.
    pub open spec fn wf(&self) -> bool {
        self@.no_duplicates()
    }

    /// An empty stack.
    pub fn new() -> (s: Self)
        ensures
            s.wf(),
            s@ == Seq::<usize>::empty(),
    {
        HandlerStack { ids: Vec::new() }
    }

    /// The number of attached handlers.
    pub fn len(&self) -> (n: usize)
        ensures
            n == self@.len(),
    {
        self.ids.len()
    }

    /// Whether no handler is attached.
    pub fn is_empty(&self) -> (b: bool)
        ensures
            b <==> self@.len() == 0,
    {
        self.ids.len() == 0
    }

    /// The handler on top of the stack, the most recently attached.
    pub fn top(&self) -> (t: Option<usize>)
        ensures
            self@.len() == 0 ==> t is None,
            self@.len() > 0 ==> t == Some(self@.last()),
    {
        if self.ids.len() == 0 {
            None
        } else {
            Some(self.ids[self.ids.len() - 1])
        }
    }

    /// Whether `id` is attached.
    pub fn contains(&self, id: usize) -> (b: bool)
        ensures
            b <==> self@.contains(id),
    {
        self.position(id).is_some()
    }

    /// The index at which `id` stands, if it is attached.
    pub fn position(&self, id: usize) -> (p: Option<usize>)
        ensures
            match p {
                Some(i) => i < self@.len() && self@[i as int] == id && forall|j: int|
                    0 <= j < i ==> self@[j] != id,
                None => !self@.contains(id),
            },
    {
        let mut i: usize = 0;
        while i < self.ids.len()
            invariant
                i <= self.ids@.len(),
                forall|j: int| 0 <= j < i ==> self.ids@[j] != id,
            decreases self.ids@.len() - i,
        {
            if self.ids[i] == id {
                return Some(i);
            }
            i = i + 1;
        }
        None
    }

    /// The handler at index `i`, counting from the bottom of the stack.
    pub fn get(&self, i: usize) -> (id: usize)
        requires
            i < self@.len(),
        ensures
            id == self@[i as int],
    {
        self.ids[i]
    }

    /// Offers a signal to the attached handlers, from the bottom of the stack
    /// (the first attached) upwards, until one of them reports it handled;
    /// `handle` asks the handler with the given identity. The signal is
    /// handled exactly when one of the handlers asked handled it, and no
    /// handler is asked after the first that did.
    pub fn dispatch<F: Fn(usize) -> bool>(&self, handle: F) -> (r: Option<usize>)
        requires
            forall|i: int| 0 <= i < self@.len() ==> call_requires(handle, (#[trigger] self@[i],)),
        ensures
            r matches Some(i) ==> i < self@.len() && call_ensures(handle, (self@[i as int],), true),
            forall|j: int|
                0 <= j < self@.len() && (r matches Some(i) ==> j < i) ==> call_ensures(
                    handle,
                    (#[trigger] self@[j],),
                    false,
                ),
    {
        let mut i: usize = 0;
        while i < self.ids.len()
            invariant
                i <= self@.len(),
                self.ids@ == self@,
                forall|k: int| 0 <= k < self@.len() ==> call_requires(handle, (#[trigger] self@[k],)),
                forall|j: int| 0 <= j < i ==> call_ensures(handle, (#[trigger] self@[j],), false),
            decreases self@.len() - i,
        {
            let id = self.ids[i];
            let handled = handle(id);
            if handled {
                return Some(i);
            }
            i = i + 1;
        }
        None
    }

    /// Pushes a newly attached handler on top of the stack.
    pub fn push(&mut self, id: usize)
        requires
            old(self).wf(),
            !old(self)@.contains(id),
        ensures
            final(self).wf(),
            final(self)@ == old(self)@.push(id),
    {
        self.ids.push(id);
        proof {
            let s = self.ids@;
            assert forall|i: int, j: int| 0 <= i < s.len() && 0 <= j < s.len() && i != j
                implies s[i] != s[j] by {
                if i == s.len() - 1 || j == s.len() - 1 {
                    if i == s.len() - 1 {
                        assert(old(self)@[j] == s[j]);
                    } else {
                        assert(old(self)@[i] == s[i]);
                    }
                }
            }
        }
    }

    /// Removes `id` from the stack wherever it stands, and says whether it
    /// was the last attached handler.
    pub fn detach(&mut self, id: usize) -> (outcome: DetachOutcome)
        requires
            old(self).wf(),
        ensures
            final(self).wf(),
            final(self)@ == old(self)@.remove_value(id),
            outcome == spec_detach_outcome(old(self)@, id),
    {
        let ghost before = self.ids@;
        match self.position(id) {
            None => {
                proof {
                    before.index_of_first_ensures(id);
                }
                DetachOutcome::NotAttached
            },
            Some(i) => {
                proof {
                    before.index_of_first_ensures(id);
                    let k = before.index_of_first(id).unwrap();
                    if k < i {
                        assert(before[k] != id);
                    } else if i < k {
                        assert(before[i as int] != id);
                    }
                    assert(k == i);
                }
                self.ids.remove(i);
                proof {
                    lemma_remove_keeps_no_duplicates(before, i as int);
                }
                if self.ids.len() == 0 {
                    DetachOutcome::RemovedLast
                } else {
                    DetachOutcome::Removed
                }
            },
        }
    }
}

/// Removing an element keeps a sequence free of duplicates.
proof fn lemma_remove_keeps_no_duplicates(s: Seq<usize>, i: int)
    requires
        s.no_duplicates(),
        0 <= i < s.len(),
    ensures
        s.remove(i).no_duplicates(),
{
    s.remove_ensures(i);
    let r = s.remove(i);
    assert forall|a: int, b: int| 0 <= a < r.len() && 0 <= b < r.len() && a != b
        implies r[a] != r[b] by {
        let sa = if a < i { a } else { a + 1 };
        let sb = if b < i { b } else { b + 1 };
        assert(r[a] == s[sa]);
        assert(r[b] == s[sb]);
    }
}

/// Attaching a handler and then detaching it gives back the stack as it was,
/// and the detach reports it as the last handler exactly when no other
/// handler was attached.
pub proof fn lemma_attach_then_detach(before: Seq<usize>, id: usize)
    requires
        before.no_duplicates(),
        !before.contains(id),
    ensures
        before.push(id).remove_value(id) == before,
        spec_detach_outcome(before.push(id), id) == (if before.len() == 0 {
            DetachOutcome::RemovedLast
        } else {
            DetachOutcome::Removed
        }),
{
    let s = before.push(id);
    assert(s[before.len() as int] == id);
    assert(s.contains(id));
    s.index_of_first_ensures(id);
    let k = s.index_of_first(id).unwrap();
    if k < before.len() {
        assert(s[k] == before[k]);
        assert(before.contains(id));
    }
    assert(k == before.len());
    assert(s.remove(k) =~= before);
}

/// Detaching a handler that is not attached leaves the stack unchanged.
pub proof fn lemma_detach_unattached(before: Seq<usize>, id: usize)
    requires
        !before.contains(id),
    ensures
        before.remove_value(id) == before,
        spec_detach_outcome(before, id) == DetachOutcome::NotAttached,
{
    before.index_of_first_ensures(id);
}

/// Detaching reports the last handler exactly when the stack becomes empty:
/// the process-wide state is restored if and only if no handler remains.
pub proof fn lemma_restore_iff_empty(before: Seq<usize>, id: usize)
    requires
        before.contains(id),
    ensures
        (spec_detach_outcome(before, id) == DetachOutcome::RemovedLast) <==> before.remove_value(
            id,
        ).len() == 0,
        before.remove_value(id).len() == before.len() - 1,
{
    before.index_of_first_ensures(id);
    let k = before.index_of_first(id).unwrap();
    before.remove_ensures(k);
}

/// In a sequence without duplicates, removing the value that stands at index
/// `k` removes index `k`.
proof fn lemma_remove_value_at(s: Seq<usize>, v: usize, k: int)
    requires
        s.no_duplicates(),
        0 <= k < s.len(),
        s[k] == v,
    ensures
        s.remove_value(v) == s.remove(k),
{
    s.index_of_first_ensures(v);
    let j = s.index_of_first(v).unwrap();
    assert(j == k);
}

/// Removing a value that a sequence does not hold leaves it unchanged.
proof fn lemma_remove_absent(s: Seq<usize>, v: usize)
    requires
        !s.contains(v),
    ensures
        s.remove_value(v) == s,
{
    s.index_of_first_ensures(v);
}

/// Handlers may be detached in any order: detaching `a` then `b` leaves the
/// same stack as detaching `b` then `a`.
pub proof fn lemma_detach_commutes(s: Seq<usize>, a: usize, b: usize)
    requires
        s.no_duplicates(),
    ensures
        s.remove_value(a).remove_value(b) == s.remove_value(b).remove_value(a),
{
    if a == b {
        return;
    }
    if !s.contains(a) {
        lemma_remove_absent(s, a);
        if s.contains(b) {
            let kb = choose|k: int| 0 <= k < s.len() && s[k] == b;
            lemma_remove_value_at(s, b, kb);
            s.remove_ensures(kb);
            assert(!s.remove(kb).contains(a)) by {
                if s.remove(kb).contains(a) {
                    let i = choose|i: int| 0 <= i < s.remove(kb).len() && s.remove(kb)[i] == a;
                    if i < kb {
                        assert(s[i] == a);
                    } else {
                        assert(s[i + 1] == a);
                    }
                }
            }
            lemma_remove_absent(s.remove(kb), a);
        } else {
            lemma_remove_absent(s, b);
        }
        return;
    }
    if !s.contains(b) {
        lemma_remove_absent(s, b);
        let ka = choose|k: int| 0 <= k < s.len() && s[k] == a;
        lemma_remove_value_at(s, a, ka);
        s.remove_ensures(ka);
        assert(!s.remove(ka).contains(b)) by {
            if s.remove(ka).contains(b) {
                let i = choose|i: int| 0 <= i < s.remove(ka).len() && s.remove(ka)[i] == b;
                if i < ka {
                    assert(s[i] == b);
                } else {
                    assert(s[i + 1] == b);
                }
            }
        }
        lemma_remove_absent(s.remove(ka), b);
        return;
    }
    let ka = choose|k: int| 0 <= k < s.len() && s[k] == a;
    let kb = choose|k: int| 0 <= k < s.len() && s[k] == b;
    assert(ka != kb);
    lemma_remove_value_at(s, a, ka);
    lemma_remove_value_at(s, b, kb);
    s.remove_ensures(ka);
    s.remove_ensures(kb);
    lemma_remove_keeps_no_duplicates(s, ka);
    lemma_remove_keeps_no_duplicates(s, kb);
    let sa = s.remove(ka);
    let sb = s.remove(kb);
    if ka < kb {
        assert(sa[kb - 1] == b);
        lemma_remove_value_at(sa, b, kb - 1);
        assert(sb[ka] == a);
        lemma_remove_value_at(sb, a, ka);
        sa.remove_ensures(kb - 1);
        sb.remove_ensures(ka);
        assert(sa.remove(kb - 1) =~= sb.remove(ka));
    } else {
        assert(sa[kb] == b);
        lemma_remove_value_at(sa, b, kb);
        assert(sb[ka - 1] == a);
        lemma_remove_value_at(sb, a, ka - 1);
        sa.remove_ensures(kb);
        sb.remove_ensures(ka - 1);
        assert(sa.remove(kb) =~= sb.remove(ka - 1));
    }
}

/// The handler just attached is the one on top of the stack.
pub proof fn lemma_attached_is_on_top(before: Seq<usize>, id: usize)
    ensures
        before.push(id).len() > 0,
        before.push(id).last() == id,
{
}

} // verus!
