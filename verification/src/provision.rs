//! Bounded retry of one provisioning target.
//!
//! A target is a storage collection that must exist before the service starts.
//! Creating it may fail for a while. The state of a target holds how many
//! attempts its budget still allows; a failure that is no "already exists" uses
//! one up, and the target is lost when none is left.

use vstd::prelude::*;

verus! {

/// Attempts that a target is given by default.
pub const RETRY_BUDGET: u8 = 3;

/// The code with which the store refuses to create a collection that exists.
pub const NAMESPACE_EXISTS: i32 = 48;

/// How one attempt to create a collection ended.
#[derive(Clone, Copy, Debug, PartialEq, Eq, Structural)]
pub enum CreateOutcome {
    /// The collection was created.
    Created,
    /// The store refused because the collection is there already.
    AlreadyExists,
    /// The attempt failed for any other reason.
    Failed,
}

impl CreateOutcome {
    /// The outcome that a refusal of the store stands for, by the code of the
    /// command error if it was one.
    pub open spec fn of_refusal(code: Option<i32>) -> CreateOutcome {
        if code == Some(NAMESPACE_EXISTS) {
            CreateOutcome::AlreadyExists
        } else {
            CreateOutcome::Failed
        }
    }

    /// Whether the collection exists after the attempt.
    pub open spec fn settles(self) -> bool {
        self != CreateOutcome::Failed
    }

    /// Reads the outcome of an attempt that the store refused. `code` is the code
    /// of the command error, `None` for a failure of another kind.
    pub fn from_refusal(code: Option<i32>) -> (outcome: CreateOutcome)
        ensures
            outcome == CreateOutcome::of_refusal(code),
            outcome != CreateOutcome::Created,
    {
        match code {
            Some(c) => {
                if c == NAMESPACE_EXISTS {
                    CreateOutcome::AlreadyExists
                } else {
                    CreateOutcome::Failed
                }
            },
            None => CreateOutcome::Failed,
        }
    }
}

/// The state of one provisioning target.
#[derive(Clone, Copy, Debug, PartialEq, Eq, Structural)]
pub enum TargetState {
    /// An attempt is due or under way; `remaining` attempts are left, this one
    /// included.
    Attempting { remaining: u8 },
    /// The collection exists.
    Ready,
    /// The budget is used up. The process must end.
    Fatal,
}

impl TargetState {
    /// The state after an attempt that ended in `outcome`. `Ready` and `Fatal`
    /// are final. A budget of 0 counts as one of 1: the first attempt is always
    /// made.
    pub open spec fn next(self, outcome: CreateOutcome) -> TargetState {
        match self {
            TargetState::Attempting { remaining } => {
                if outcome.settles() {
                    TargetState::Ready
                } else if remaining > 1 {
                    TargetState::Attempting { remaining: (remaining - 1) as u8 }
                } else {
                    TargetState::Fatal
                }
            },
            TargetState::Ready => TargetState::Ready,
            TargetState::Fatal => TargetState::Fatal,
        }
    }

    /// The state after the attempts that ended in `outcomes`, in this order.
    /// Outcomes that follow a final state change nothing.
    pub open spec fn after(self, outcomes: Seq<CreateOutcome>) -> TargetState
        decreases outcomes.len(),
    {
        if outcomes.len() == 0 {
            self
        } else {
            self.next(outcomes[0]).after(outcomes.drop_first())
        }
    }

    /// Whether no further attempt follows.
    pub open spec fn terminal(self) -> bool {
        !(self is Attempting)
    }

    /// Attempts that the state still allows.
    pub open spec fn attempts_left(self) -> int {
        match self {
            TargetState::Attempting { remaining } => if remaining == 0 {
                1
            } else {
                remaining as int
            },
            _ => 0,
        }
    }

    /// The state of a target before its first attempt.
    pub fn start(budget: u8) -> (state: TargetState)
        ensures
            state == (TargetState::Attempting { remaining: budget }),
    {
        TargetState::Attempting { remaining: budget }
    }

    /// Takes the outcome of one attempt.
    pub fn step(self, outcome: CreateOutcome) -> (state: TargetState)
        ensures
            state == self.next(outcome),
            self.terminal() ==> state == self,
            !self.terminal() && outcome.settles() ==> state == TargetState::Ready,
            !self.terminal() && !outcome.settles() ==> state.attempts_left()
                == self.attempts_left() - 1,
            state is Fatal <==> self is Fatal || (!outcome.settles() && self.attempts_left() == 1),
    {
        match self {
            TargetState::Attempting { remaining } => {
                match outcome {
                    CreateOutcome::Failed => {
                        if remaining > 1 {
                            TargetState::Attempting { remaining: remaining - 1 }
                        } else {
                            TargetState::Fatal
                        }
                    },
                    _ => TargetState::Ready,
                }
            },
            TargetState::Ready => TargetState::Ready,
            TargetState::Fatal => TargetState::Fatal,
        }
    }

    /// Whether no further attempt follows.
    pub fn is_terminal(&self) -> (done: bool)
        ensures
            done == self.terminal(),
    {
        match self {
            TargetState::Attempting { .. } => false,
            _ => true,
        }
    }

    /// Takes the outcomes of a run of attempts, in order.
    pub fn replay(self, outcomes: &[CreateOutcome]) -> (state: TargetState)
        ensures
            state == self.after(outcomes@),
    {
        let mut state = self;
        let mut i: usize = 0;
        proof {
            assert(outcomes@.skip(0) =~= outcomes@);
        }
        while i < outcomes.len()
            invariant
                i <= outcomes@.len(),
                state.after(outcomes@.skip(i as int)) == self.after(outcomes@),
            decreases outcomes@.len() - i,
        {
            proof {
                let rest = outcomes@.skip(i as int);
                assert(rest[0] == outcomes@[i as int]);
                assert(rest.drop_first() =~= outcomes@.skip(i + 1));
            }
            state = state.step(outcomes[i]);
            i = i + 1;
        }
        proof {
            assert(outcomes@.skip(i as int).len() == 0);
        }
        state
    }
}

/// `n` failed attempts in a row.
pub open spec fn failures(n: nat) -> Seq<CreateOutcome> {
    Seq::new(n, |i: int| CreateOutcome::Failed)
}

/// A final state stays whatever follows.
pub proof fn law_terminal_is_final(state: TargetState, outcomes: Seq<CreateOutcome>)
    requires
        state.terminal(),
    ensures
        state.after(outcomes) == state,
    decreases outcomes.len(),
{
    if outcomes.len() > 0 {
        law_terminal_is_final(state, outcomes.drop_first());
    }
}

/// A target whose first attempt finds the collection in place, or creates it, is
/// ready at once, whatever its budget: no attempt of the budget is used up.
pub proof fn law_settled_at_once(budget: u8, first: CreateOutcome, rest: Seq<CreateOutcome>)
    requires
        first.settles(),
    ensures
        (TargetState::Attempting { remaining: budget }).next(first) == TargetState::Ready,
        (TargetState::Attempting { remaining: budget }).after(seq![first] + rest)
            == TargetState::Ready,
{
    let all = seq![first] + rest;
    assert(all[0] == first);
    assert(all.drop_first() =~= rest);
    law_terminal_is_final(TargetState::Ready, rest);
}

/// After `n` failures in a row a target is lost if its budget allowed no more
/// than `n` attempts, and is still attempting, with `n` attempts fewer, if it
/// allowed more.
pub proof fn law_failures_use_up_budget(budget: u8, n: nat)
    ensures
        (TargetState::Attempting { remaining: budget }).after(failures(n)) == if n == 0 {
            TargetState::Attempting { remaining: budget }
        } else if n < budget {
            TargetState::Attempting { remaining: (budget - n) as u8 }
        } else {
            TargetState::Fatal
        },
    decreases n,
{
    let start = TargetState::Attempting { remaining: budget };
    let all = failures(n);
    if n > 0 {
        assert(all[0] == CreateOutcome::Failed);
        assert(all.drop_first() =~= failures((n - 1) as nat));
        if budget > 1 {
            law_failures_use_up_budget((budget - 1) as u8, (n - 1) as nat);
        } else {
            law_terminal_is_final(TargetState::Fatal, failures((n - 1) as nat));
        }
    }
}

/// The state after two runs of attempts is the state after the second run,
/// taken from the state after the first.
pub proof fn law_after_concatenation(
    state: TargetState,
    first: Seq<CreateOutcome>,
    second: Seq<CreateOutcome>,
)
    ensures
        state.after(first + second) == state.after(first).after(second),
    decreases first.len(),
{
    if first.len() == 0 {
        assert(first + second =~= second);
    } else {
        let all = first + second;
        assert(all[0] == first[0]);
        assert(all.drop_first() =~= first.drop_first() + second);
        law_after_concatenation(state.next(first[0]), first.drop_first(), second);
    }
}

/// A store that fails `n` times and then succeeds, or finds the collection in
/// place: the target is ready exactly when its budget allowed more than `n`
/// attempts, and lost otherwise. Whatever follows changes nothing.
pub proof fn law_retry_until_budget(
    budget: u8,
    n: nat,
    last: CreateOutcome,
    rest: Seq<CreateOutcome>,
)
    requires
        last.settles(),
    ensures
        (TargetState::Attempting { remaining: budget }).after(failures(n) + seq![last] + rest)
            == if n == 0 || n < budget {
            TargetState::Ready
        } else {
            TargetState::Fatal
        },
{
    let start = TargetState::Attempting { remaining: budget };
    let tail = seq![last] + rest;
    assert(failures(n) + seq![last] + rest =~= failures(n) + tail);
    law_after_concatenation(start, failures(n), tail);
    law_failures_use_up_budget(budget, n);
    let mid = start.after(failures(n));
    assert(tail[0] == last);
    assert(tail.drop_first() =~= rest);
    law_terminal_is_final(mid.next(last), rest);
}

} // verus!
