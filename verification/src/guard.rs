//! The exclusivity guard: admission control for preview, frame grab and recording.

use vstd::prelude::*;

verus! {

/// The flag "an operation is in progress". Admission is immediate: a caller
/// either takes the flag or is turned away, nobody waits.
#[derive(Debug)]
pub struct ExclusivityGuard {
    held: bool,
}

impl ExclusivityGuard {
    /// Whether an operation holds the guard.
    pub closed spec fn held(&self) -> bool {
        self.held
    }

    /// The guard once an operation has taken it.
    pub closed spec fn taken(self) -> ExclusivityGuard {
        ExclusivityGuard { held: true }
    }

    /// The guard once it has been cleared.
    pub closed spec fn cleared(self) -> ExclusivityGuard {
        ExclusivityGuard { held: false }
    }

    /// A taken guard is held, a cleared one is not, and a guard is nothing but its flag.
    pub broadcast proof fn lemma_flag(self)
        ensures
            #![trigger self.taken()]
            #![trigger self.cleared()]
            self.taken().held(),
            !self.cleared().held(),
            self.held() ==> self.taken() == self,
            !self.held() ==> self.cleared() == self,
    {
    }

    /// A guard that nobody holds.
    pub fn new() -> (guard: ExclusivityGuard)
        ensures
            !guard.held(),
    {
        ExclusivityGuard { held: false }
    }

    /// Whether an operation holds the guard.
    pub fn is_held(&self) -> (held: bool)
        ensures
            held == self.held(),
    {
        self.held
    }

    /// Takes the guard if it is free. Returns whether the caller now holds it.
    pub fn try_acquire(&mut self) -> (admitted: bool)
        ensures
            admitted == !old(self).held(),
            *final(self) == old(self).taken(),
    {
        if self.held {
            false
        } else {
            self.held = true;
            true
        }
    }

    /// Clears the guard, whoever holds it.
    pub fn release(&mut self)
        ensures
            *final(self) == old(self).cleared(),
    {
        self.held = false;
    }
}

/// A call that an operation makes on the guard. Operations are told apart by a number.
pub enum GuardCall {
    /// The operation asks for admission.
    Begin(nat),
    /// The operation ends and clears the guard.
    End(nat),
}

/// The guard together with the operations that were admitted and have not ended.
pub struct Admissions {
    pub guard: ExclusivityGuard,
    pub running: Set<nat>,
}

/// The effect of one call: a request is admitted only by a free guard, and
/// an ending operation clears the guard without looking at who holds it.
pub open spec fn after_call(s: Admissions, call: GuardCall) -> Admissions {
    match call {
        GuardCall::Begin(op) => if s.guard.held() {
            s
        } else {
            Admissions { guard: s.guard.taken(), running: s.running.insert(op) }
        },
        GuardCall::End(op) => Admissions { guard: s.guard.cleared(), running: s.running.remove(op) },
    }
}

/// The state that a sequence of calls leaves, starting from `start`.
pub open spec fn after_calls(start: Admissions, calls: Seq<GuardCall>) -> Admissions
    decreases calls.len(),
{
    if calls.len() == 0 {
        start
    } else {
        after_call(after_calls(start, calls.drop_last()), calls.last())
    }
}

/// Every `End` in `calls` is made by an operation that is running at that moment.
pub open spec fn ends_own_work(start: Admissions, calls: Seq<GuardCall>) -> bool {
    forall|i: int|
        0 <= i < calls.len() ==> (#[trigger] calls[i] matches GuardCall::End(op) ==> after_calls(
            start,
            calls.take(i),
        ).running.contains(op))
}

/// At most one operation is running, and the guard is held exactly while one is.
pub open spec fn exclusive(s: Admissions) -> bool {
    if s.guard.held() {
        exists|op: nat| s.running == set![op]
    } else {
        s.running == Set::<nat>::empty()
    }
}

/// Mutual exclusion: from a free guard with nothing running, a sequence of
/// calls in which only running operations end never leaves two operations
/// admitted at once, and the guard is held exactly while one is running.
pub proof fn lemma_at_most_one_admitted(start: Admissions, calls: Seq<GuardCall>)
    requires
        exclusive(start),
        ends_own_work(start, calls),
    ensures
        exclusive(after_calls(start, calls)),
        after_calls(start, calls).running.finite(),
        after_calls(start, calls).running.len() <= 1,
        after_calls(start, calls).guard.held() <==> after_calls(start, calls).running.len() == 1,
    decreases calls.len(),
{
    broadcast use ExclusivityGuard::lemma_flag;

    if calls.len() > 0 {
        let before = calls.drop_last();
        assert forall|i: int| 0 <= i < before.len() implies (#[trigger] before[i] matches GuardCall::End(
            op,
        ) ==> after_calls(start, before.take(i)).running.contains(op)) by {
            assert(before[i] == calls[i]);
            assert(before.take(i) =~= calls.take(i));
        }
        lemma_at_most_one_admitted(start, before);
        let s = after_calls(start, before);
        assert(calls.take(calls.len() - 1) =~= before);
        match calls.last() {
            GuardCall::Begin(op) => {
                if !s.guard.held() {
                    assert(s.running.insert(op) =~= set![op]);
                }
            },
            GuardCall::End(op) => {
                assert(calls[calls.len() - 1] == calls.last());
                assert(s.running.contains(op));
                assert(s.running.remove(op) =~= Set::<nat>::empty());
            },
        }
    }
    let t = after_calls(start, calls);
    if t.guard.held() {
        let op = choose|o: nat| t.running == set![o];
        assert(t.running.len() == 1);
    }
}

} // verus!
