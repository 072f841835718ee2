//! What one thread has entered and opened, innermost last.
//!
//! The engine keeps, for each thread, the isolates that were entered and not yet left,
//! and the handle scopes that were opened and not yet closed. Both are stacks, and the
//! engine's behaviour is undefined where they are not treated as such. `Stack` is the
//! layer's own record of the two: what the engine leaves undefined, the layer rules out
//! against this record.

use std::marker::PhantomData;
use std::rc::Rc;
use vstd::prelude::*;

verus! {

/// The record as a pair of sequences, innermost last.
#[verifier::ext_equal]
pub struct StackView {
    /// The isolates entered and not yet left.
    pub entered: Seq<usize>,
    /// For each handle scope that is open, the isolate it was opened in.
    pub scopes: Seq<usize>,
}

/// The place of a handle scope in the record: how many scopes were open when it was
/// opened, and the isolate that was active then.
pub struct ScopeId {
    pub depth: nat,
    pub isolate: usize,
}

impl StackView {
    /// Nothing entered, nothing open.
    pub open spec fn empty() -> StackView {
        StackView { entered: Seq::empty(), scopes: Seq::empty() }
    }

    /// The active isolate: the one entered last among those not yet left.
    pub open spec fn current(self) -> Option<usize> {
        if self.entered.len() > 0 {
            Some(self.entered.last())
        } else {
            None
        }
    }

    /// Whether `isolate` has been entered and not left as often.
    pub open spec fn in_use(self, isolate: usize) -> bool {
        self.entered.contains(isolate)
    }

    /// The record after `isolate` was entered.
    pub open spec fn enter(self, isolate: usize) -> StackView {
        StackView { entered: self.entered.push(isolate), scopes: self.scopes }
    }

    /// The record after the active isolate was left.
    pub open spec fn exit(self) -> StackView {
        StackView { entered: self.entered.drop_last(), scopes: self.scopes }
    }

    /// The place that the next scope to be opened in `isolate` gets.
    pub open spec fn next_scope(self, isolate: usize) -> ScopeId {
        ScopeId { depth: self.scopes.len(), isolate }
    }

    /// The record after a scope was opened in `isolate`.
    pub open spec fn open_scope(self, isolate: usize) -> StackView {
        StackView { entered: self.entered, scopes: self.scopes.push(isolate) }
    }

    /// Whether the scope at `id` is open and no scope opened after it still is.
    pub open spec fn innermost(self, id: ScopeId) -> bool {
        self.scopes.len() == id.depth + 1 && self.scopes.last() == id.isolate
    }

    /// The record after the innermost scope was closed.
    pub open spec fn close_scope(self) -> StackView {
        StackView { entered: self.entered, scopes: self.scopes.drop_last() }
    }

    /// The record after `n` scopes were opened in `isolate`, each inside the one before.
    pub open spec fn open_scopes(self, isolate: usize, n: nat) -> StackView
        decreases n,
    {
        if n == 0 {
            self
        } else {
            self.open_scopes(isolate, (n - 1) as nat).open_scope(isolate)
        }
    }

    /// The record after the `n` innermost scopes were closed, the innermost first.
    pub open spec fn close_scopes(self, n: nat) -> StackView
        decreases n,
    {
        if n == 0 {
            self
        } else {
            self.close_scope().close_scopes((n - 1) as nat)
        }
    }
}

/// An isolate that was entered is the active one, and can be left at once; to leave it
/// puts the record back as it was.
pub proof fn enter_then_exit(s: StackView, isolate: usize)
    ensures
        s.enter(isolate).current() == Some(isolate),
        s.enter(isolate).in_use(isolate),
        s.enter(isolate).exit() == s,
{
}

/// An isolate that is not in use is not the active one: it cannot be left without having
/// been entered, and on a thread that has entered nothing no isolate can be left at all.
pub proof fn unused_is_not_current(s: StackView, isolate: usize)
    ensures
        !s.in_use(isolate) ==> s.current() != Some(isolate),
        StackView::empty().current() is None,
        !StackView::empty().in_use(isolate),
{
}

/// While another isolate is the active one, an isolate cannot be left, whether it was
/// entered before the other or not.
pub proof fn other_isolate_is_active(s: StackView, isolate: usize, other: usize)
    requires
        other != isolate,
    ensures
        s.enter(other).current() != Some(isolate),
        s.enter(isolate).enter(other).current() != Some(isolate),
{
}

/// To enter an isolate and to leave the active one changes nothing about whether another
/// isolate is in use, and an isolate left as often as it was entered is in use no more
/// than before.
pub proof fn in_use_follows_entries(s: StackView, isolate: usize, other: usize)
    ensures
        other != isolate ==> s.enter(other).in_use(isolate) == s.in_use(isolate),
        s.enter(isolate).exit().in_use(isolate) == s.in_use(isolate),
{
    enter_then_exit(s, isolate);
    if other != isolate {
        let entered = s.enter(other);
        if s.in_use(isolate) {
            let i = choose|i: int| 0 <= i < s.entered.len() && s.entered[i] == isolate;
            assert(entered.entered[i] == isolate);
        }
        if entered.in_use(isolate) {
            let i = choose|i: int| 0 <= i < entered.entered.len() && entered.entered[i] == isolate;
            assert(s.entered[i] == isolate);
        }
    }
}

/// What `open_scopes` and `close_scopes` do to the record, in closed form.
proof fn scopes_in_closed_form(s: StackView, isolate: usize, n: nat)
    ensures
        s.open_scopes(isolate, n).entered == s.entered,
        s.open_scopes(isolate, n).scopes == s.scopes + Seq::new(n, |i: int| isolate),
        n <= s.scopes.len() ==> s.close_scopes(n).entered == s.entered,
        n <= s.scopes.len() ==> s.close_scopes(n).scopes == s.scopes.take(s.scopes.len() - n),
    decreases n,
{
    if n > 0 {
        let m = (n - 1) as nat;
        scopes_in_closed_form(s, isolate, m);
        if n <= s.scopes.len() {
            scopes_in_closed_form(s.close_scope(), isolate, m);
        }
    }
}

/// Scopes that were opened one inside the other close in the reverse order. Of `n` such
/// scopes, the one opened after `k` others is the innermost exactly when the `n - 1 - k`
/// scopes opened after it have been closed and no more: before that it cannot be closed,
/// and when all `n` are closed the record is what it was.
pub proof fn nested_scopes_close_in_reverse(s: StackView, isolate: usize, n: nat, k: nat, closed: nat)
    requires
        k < n,
        closed < n,
    ensures
        s.open_scopes(isolate, n).close_scopes(closed).innermost(
            s.open_scopes(isolate, k).next_scope(isolate),
        ) <==> closed == n - 1 - k,
        s.open_scopes(isolate, n).close_scopes(n) == s,
{
    let opened = s.open_scopes(isolate, n);
    scopes_in_closed_form(s, isolate, k);
    scopes_in_closed_form(s, isolate, n);
    scopes_in_closed_form(opened, isolate, closed);
    scopes_in_closed_form(opened, isolate, n);
}

/// The layer's record of what the thread has entered and opened. It is the record of one
/// thread, and cannot be sent or shared across threads.
pub struct Stack {
    entered: Vec<usize>,
    scopes: Vec<usize>,
    _thread: PhantomData<Rc<()>>,
}

impl View for Stack {
    type V = StackView;

    closed spec fn view(&self) -> StackView {
        StackView { entered: self.entered@, scopes: self.scopes@ }
    }
}

impl Stack {
    /// The record of a thread that has entered and opened nothing.
    pub fn new() -> (res: Stack)
        ensures
            res@ == StackView::empty(),
    {
        Stack { entered: Vec::new(), scopes: Vec::new(), _thread: PhantomData }
    }

    /// The active isolate, if there is one.
    pub fn current(&self) -> (res: Option<usize>)
        ensures
            res == self@.current(),
    {
        let n = self.entered.len();
        if n > 0 {
            Some(self.entered[n - 1])
        } else {
            None
        }
    }

    /// Whether `isolate` is among the isolates entered and not yet left.
    pub fn in_use(&self, isolate: usize) -> (res: bool)
        ensures
            res == self@.in_use(isolate),
    {
        let mut i: usize = 0;
        while i < self.entered.len()
            invariant
                i <= self.entered.len(),
                forall|j: int| 0 <= j < i ==> self.entered@[j] != isolate,
            decreases self.entered.len() - i,
        {
            if self.entered[i] == isolate {
                return true;
            }
            i += 1;
        }
        false
    }

    /// How many handle scopes are open.
    pub fn depth(&self) -> (res: usize)
        ensures
            res == self@.scopes.len(),
    {
        self.scopes.len()
    }

    /// Whether the scope at `depth`, opened in `isolate`, is the innermost open one.
    pub fn innermost(&self, depth: usize, isolate: usize) -> (res: bool)
        ensures
            res == self@.innermost(ScopeId { depth: depth as nat, isolate }),
    {
        let n = self.scopes.len();
        n > 0 && n - 1 == depth && self.scopes[n - 1] == isolate
    }

    /// Records that `isolate` was entered.
    pub(crate) fn enter(&mut self, isolate: usize)
        ensures
            final(self)@ == old(self)@.enter(isolate),
    {
        self.entered.push(isolate);
    }

    /// Records that the active isolate was left.
    pub(crate) fn exit(&mut self)
        requires
            old(self)@.current() is Some,
        ensures
            final(self)@ == old(self)@.exit(),
    {
        let _ = self.entered.pop();
    }

    /// Records that a scope was opened in `isolate`.
    pub(crate) fn open_scope(&mut self, isolate: usize) -> (depth: usize)
        ensures
            depth == old(self)@.scopes.len(),
            final(self)@ == old(self)@.open_scope(isolate),
    {
        let depth = self.scopes.len();
        self.scopes.push(isolate);
        depth
    }

    /// Records that the innermost scope was closed.
    pub(crate) fn close_scope(&mut self)
        requires
            old(self)@.scopes.len() > 0,
        ensures
            final(self)@ == old(self)@.close_scope(),
    {
        let _ = self.scopes.pop();
    }
}

} // verus!
