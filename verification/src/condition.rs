//! A single-shot, idempotent "changed" signal.
//!
//! The signal goes from unset to set once and never back. Any number of
//! raises may follow one another; only the first has an effect. Its one
//! waiter is told of the transition once.
//!
//! The type holds no lock of its own. Callers that raise it from several
//! tasks keep it behind a mutex, so that raises and observations happen one
//! after another; the laws below are stated for every such order.

use vstd::prelude::*;

verus! {

/// What a condition looks like from outside.
#[derive(Clone, Copy, Debug, PartialEq, Eq, Structural)]
pub enum ConditionState {
    /// Never raised.
    Unset,
    /// Raised, and the waiter has not seen it yet.
    Pending,
    /// Raised, and the waiter has seen it.
    Observed,
}

/// One operation on a condition.
#[derive(Clone, Copy, Debug, PartialEq, Eq, Structural)]
pub enum ConditionOp {
    Raise,
    Observe,
}

impl ConditionState {
    /// Whether the signal has been raised.
    pub open spec fn is_set(self) -> bool {
        self != ConditionState::Unset
    }

    /// The state after a raise: an unset condition becomes pending, a set one
    /// stays as it is.
    pub open spec fn raised(self) -> ConditionState {
        if self == ConditionState::Unset {
            ConditionState::Pending
        } else {
            self
        }
    }

    /// The state after the waiter looked: a pending condition becomes
    /// observed, the others stay as they are.
    pub open spec fn observed(self) -> ConditionState {
        if self == ConditionState::Pending {
            ConditionState::Observed
        } else {
            self
        }
    }

    /// The state after one operation.
    pub open spec fn apply(self, op: ConditionOp) -> ConditionState {
        match op {
            ConditionOp::Raise => self.raised(),
            ConditionOp::Observe => self.observed(),
        }
    }

    /// The state after a sequence of operations, first to last.
    pub open spec fn run(self, ops: Seq<ConditionOp>) -> ConditionState
        decreases ops.len(),
    {
        if ops.len() == 0 {
            self
        } else {
            self.run(ops.drop_last()).apply(ops.last())
        }
    }

    /// How many operations of `ops` took the condition from unset to set.
    pub open spec fn transitions(self, ops: Seq<ConditionOp>) -> nat
        decreases ops.len(),
    {
        if ops.len() == 0 {
            0
        } else {
            let before = self.run(ops.drop_last());
            let here: nat = if ops.last() == ConditionOp::Raise && !before.is_set() {
                1
            } else {
                0
            };
            self.transitions(ops.drop_last()) + here
        }
    }

    /// How many operations of `ops` told the waiter of a transition.
    pub open spec fn wakeups(self, ops: Seq<ConditionOp>) -> nat
        decreases ops.len(),
    {
        if ops.len() == 0 {
            0
        } else {
            let before = self.run(ops.drop_last());
            let here: nat = if ops.last() == ConditionOp::Observe && before
                == ConditionState::Pending {
                1
            } else {
                0
            };
            self.wakeups(ops.drop_last()) + here
        }
    }
}

/// A one-way signal: once raised it stays raised, and its waiter is told
/// once.
#[derive(Debug)]
pub struct ChangeCondition {
    state: ConditionState,
}

impl View for ChangeCondition {
    type V = ConditionState;

    closed spec fn view(&self) -> ConditionState {
        self.state
    }
}

impl ChangeCondition {
    /// A fresh, unset condition.
    pub fn new() -> (c: Self)
        ensures
            c@ == ConditionState::Unset,
    {
        ChangeCondition { state: ConditionState::Unset }
    }

    /// Whether the condition has been raised.
    pub fn is_set(&self) -> (set: bool)
        ensures
            set == self@.is_set(),
    {
        match self.state {
            ConditionState::Unset => false,
            _ => true,
        }
    }

    /// The state as seen from outside.
    pub fn state(&self) -> (s: ConditionState)
        ensures
            s == self@,
    {
        self.state
    }

    /// Raises the condition. Returns `true` if this raise made the transition
    /// from unset to set; on a condition that is already set nothing changes
    /// and `false` is returned.
    pub fn raise(&mut self) -> (first: bool)
        ensures
            final(self)@ == old(self)@.raised(),
            first == !old(self)@.is_set(),
            final(self)@.is_set(),
    {
        match self.state {
            ConditionState::Unset => {
                self.state = ConditionState::Pending;
                true
            },
            _ => false,
        }
    }

    /// The waiter's look at the condition. Returns `true` once, at the first
    /// look after the condition was raised, and `false` before that and ever
    /// after.
    pub fn observe(&mut self) -> (woken: bool)
        ensures
            final(self)@ == old(self)@.observed(),
            woken == (old(self)@ == ConditionState::Pending),
    {
        match self.state {
            ConditionState::Pending => {
                self.state = ConditionState::Observed;
                true
            },
            _ => false,
        }
    }
}

/// Whether `ops` holds a raise.
pub open spec fn has_raise(ops: Seq<ConditionOp>) -> bool {
    exists|i: int| 0 <= i < ops.len() && ops[i] == ConditionOp::Raise
}

/// A condition is set after a run exactly when it was set before or the run
/// holds a raise: no operation unsets it.
pub proof fn lemma_set_is_permanent(start: ConditionState, ops: Seq<ConditionOp>)
    ensures
        start.run(ops).is_set() == (start.is_set() || has_raise(ops)),
    decreases ops.len(),
{
    if ops.len() > 0 {
        let init = ops.drop_last();
        lemma_set_is_permanent(start, init);
        if has_raise(init) {
            let i = choose|i: int| 0 <= i < init.len() && init[i] == ConditionOp::Raise;
            assert(ops[i] == ConditionOp::Raise);
        }
        if ops.last() == ConditionOp::Raise {
            assert(ops[ops.len() - 1] == ConditionOp::Raise);
        }
        if has_raise(ops) && !has_raise(init) {
            let i = choose|i: int| 0 <= i < ops.len() && ops[i] == ConditionOp::Raise;
            if i < init.len() {
                assert(init[i] == ConditionOp::Raise);
            }
        }
    }
}

/// However many raises a run holds, and in whatever order they fall among
/// the waiter's looks, an unset condition makes its transition exactly once
/// if the run holds a raise, and never otherwise.
pub proof fn lemma_one_transition(ops: Seq<ConditionOp>)
    ensures
        ConditionState::Unset.transitions(ops) == if has_raise(ops) {
            1nat
        } else {
            0nat
        },
    decreases ops.len(),
{
    if ops.len() > 0 {
        let init = ops.drop_last();
        lemma_one_transition(init);
        lemma_set_is_permanent(ConditionState::Unset, init);
        lemma_set_is_permanent(ConditionState::Unset, ops);
        if has_raise(init) {
            let i = choose|i: int| 0 <= i < init.len() && init[i] == ConditionOp::Raise;
            assert(ops[i] == ConditionOp::Raise);
        }
        if ops.last() == ConditionOp::Raise {
            assert(ops[ops.len() - 1] == ConditionOp::Raise);
        } else if has_raise(ops) {
            let i = choose|i: int| 0 <= i < ops.len() && ops[i] == ConditionOp::Raise;
            assert(init[i] == ConditionOp::Raise);
        }
    }
}

/// The waiter is told exactly once if the run leaves the condition observed,
/// and not at all otherwise: never twice.
pub proof fn lemma_wakeups(ops: Seq<ConditionOp>)
    ensures
        ConditionState::Unset.wakeups(ops) == if ConditionState::Unset.run(ops)
            == ConditionState::Observed {
            1nat
        } else {
            0nat
        },
    decreases ops.len(),
{
    if ops.len() > 0 {
        lemma_wakeups(ops.drop_last());
    }
}

/// After one raise or many, in any order, the waiter's next look wakes it,
/// unless an earlier look already did: over the whole run it is woken
/// exactly once.
pub proof fn lemma_single_waiter_wakes_once(ops: Seq<ConditionOp>)
    requires
        has_raise(ops),
    ensures
        ConditionState::Unset.transitions(ops) == 1,
        ConditionState::Unset.wakeups(ops.push(ConditionOp::Observe)) == 1,
{
    let all = ops.push(ConditionOp::Observe);
    assert(all.drop_last() =~= ops);
    lemma_one_transition(ops);
    lemma_set_is_permanent(ConditionState::Unset, ops);
    lemma_wakeups(all);
}

/// A raise on a condition that is already set changes nothing, and so does a
/// raise after a raise.
pub proof fn lemma_raise_idempotent(state: ConditionState)
    ensures
        state.raised().raised() == state.raised(),
        state.is_set() ==> state.raised() == state,
{
}

} // verus!
