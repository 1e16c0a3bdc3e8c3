//! The start-up sequence of the service.
//!
//! Two collections must exist and the store must hold at least one principal
//! before the first request is served. The sequencer here decides what is done
//! next; the program around it does it and reports back. The two collections are
//! provisioned side by side, each with its own retry budget. The principals are
//! counted only when both are ready, and a default administrator is created only
//! into an empty store.

use vstd::prelude::*;
use crate::permission::Permission;
use crate::provision::{CreateOutcome, TargetState};
use crate::secret::{bcrypt_verdict, hash_secret, Verdict};

verus! {

/// One of the two collections that the service needs.
#[derive(Clone, Copy, Debug, PartialEq, Eq, Structural)]
pub enum Target {
    /// The collection of redirects.
    Resources,
    /// The collection of principals.
    Principals,
}

/// A principal that is about to be created: the store has given it no
/// identifier yet.
#[derive(Clone, Debug, PartialEq, Eq)]
pub struct NewPrincipal {
    pub name: String,
    pub secret_hash: String,
    pub permissions: Permission,
}

/// How far the seeding of the default administrator has come.
#[derive(Clone, Copy, Debug, PartialEq, Eq, Structural)]
pub enum SeedState {
    /// The collections are not ready yet.
    Waiting,
    /// The principals are being counted.
    Counting,
    /// The default administrator is being created.
    Creating,
    /// The store holds a principal.
    Complete,
    /// The store could not be counted or seeded.
    Fatal,
}

/// The phase of the whole sequence.
#[derive(Clone, Copy, Debug, PartialEq, Eq, Structural)]
pub enum Phase {
    Provisioning,
    Counting,
    Seeding,
    Ready,
    Fatal,
}

/// What the program does next.
#[derive(Clone, Debug, PartialEq, Eq)]
pub enum Action {
    /// Try again to create the collection.
    Ensure(Target),
    /// Nothing new: what is under way goes on.
    Wait,
    /// Count the principals in the store.
    Count,
    /// Create this principal.
    Create(NewPrincipal),
    /// The store is ready: serve.
    Finish,
    /// End the process with a failure.
    Abort,
}

/// The state of the start-up sequence.
#[derive(Clone, Copy, Debug, PartialEq, Eq, Structural)]
pub struct Sequencer {
    pub resources: TargetState,
    pub principals: TargetState,
    pub seed: SeedState,
}

/// A principal that is about to be created, as plain values.
pub struct NewPrincipalView {
    pub name: Seq<char>,
    pub secret_hash: Seq<char>,
    pub permissions: Permission,
}

impl View for NewPrincipal {
    type V = NewPrincipalView;

    open spec fn view(&self) -> NewPrincipalView {
        NewPrincipalView {
            name: self.name@,
            secret_hash: self.secret_hash@,
            permissions: self.permissions,
        }
    }
}

/// An action, as plain values.
pub enum ActionView {
    Ensure(Target),
    Wait,
    Count,
    Create(NewPrincipalView),
    Finish,
    Abort,
}

impl View for Action {
    type V = ActionView;

    open spec fn view(&self) -> ActionView {
        match self {
            Action::Ensure(target) => ActionView::Ensure(*target),
            Action::Wait => ActionView::Wait,
            Action::Count => ActionView::Count,
            Action::Create(principal) => ActionView::Create(principal@),
            Action::Finish => ActionView::Finish,
            Action::Abort => ActionView::Abort,
        }
    }
}

/// The characters of a hash, if there is one.
pub open spec fn plain(hash: Option<String>) -> Option<Seq<char>> {
    match hash {
        Some(h) => Some(h@),
        None => None,
    }
}

/// Name of the default administrator.
pub open spec fn default_name() -> Seq<char> {
    "admin"@
}

/// Initial secret of the default administrator, which its operator replaces.
pub open spec fn default_secret() -> Seq<char> {
    "pass"@
}

/// The default administrator with the given hash of its secret: named `admin`,
/// with the administrator flag and no other.
pub open spec fn default_administrator(hash: Seq<char>) -> NewPrincipalView {
    NewPrincipalView { name: default_name(), secret_hash: hash, permissions: Permission::full() }
}

impl NewPrincipal {
    /// The default administrator with the given hash of its secret.
    pub fn administrator(hash: String) -> (p: NewPrincipal)
        ensures
            p@ == default_administrator(hash@),
            p.secret_hash == hash,
            p.permissions@[0],
    {
        NewPrincipal {
            name: "admin".to_owned(),
            secret_hash: hash,
            permissions: Permission::administrator(),
        }
    }
}

impl Sequencer {
    /// The state before anything was tried: both collections have their whole
    /// budget.
    pub open spec fn initial(budget: u8) -> Sequencer {
        Sequencer {
            resources: TargetState::Attempting { remaining: budget },
            principals: TargetState::Attempting { remaining: budget },
            seed: SeedState::Waiting,
        }
    }

    /// The seeding starts only when both collections are ready.
    pub open spec fn wf(self) -> bool {
        self.seed != SeedState::Waiting ==> self.resources is Ready && self.principals is Ready
    }

    /// The phase that the state is in. A lost collection or a failed seeding
    /// makes the whole sequence fatal.
    pub open spec fn phase(self) -> Phase {
        if self.resources is Fatal || self.principals is Fatal || self.seed is Fatal {
            Phase::Fatal
        } else {
            match self.seed {
                SeedState::Waiting => Phase::Provisioning,
                SeedState::Counting => Phase::Counting,
                SeedState::Creating => Phase::Seeding,
                SeedState::Complete => Phase::Ready,
                SeedState::Fatal => Phase::Fatal,
            }
        }
    }

    /// The state of one collection.
    pub open spec fn target(self, target: Target) -> TargetState {
        match target {
            Target::Resources => self.resources,
            Target::Principals => self.principals,
        }
    }

    /// The state with one collection's state replaced.
    pub open spec fn with_target(self, target: Target, state: TargetState) -> Sequencer {
        match target {
            Target::Resources => Sequencer { resources: state, ..self },
            Target::Principals => Sequencer { principals: state, ..self },
        }
    }

    /// Whether an outcome for `target` is expected: the sequence is provisioning
    /// and the collection is still attempted.
    pub open spec fn awaits_collection(self, target: Target) -> bool {
        self.phase() == Phase::Provisioning && self.target(target) is Attempting
    }

    /// The action for an event that is not expected in the state: nothing
    /// changes, and the action says where the sequence stands.
    pub open spec fn standing_action(self) -> ActionView {
        match self.phase() {
            Phase::Fatal => ActionView::Abort,
            Phase::Ready => ActionView::Finish,
            _ => ActionView::Wait,
        }
    }

    /// The state after an attempt on `target` ended in `outcome`. When the
    /// second collection becomes ready the counting starts.
    pub open spec fn after_collection(self, target: Target, outcome: CreateOutcome) -> Sequencer {
        if self.awaits_collection(target) {
            let moved = self.with_target(target, self.target(target).next(outcome));
            if moved.resources is Ready && moved.principals is Ready {
                Sequencer { seed: SeedState::Counting, ..moved }
            } else {
                moved
            }
        } else {
            self
        }
    }

    /// The action after an attempt on `target` ended in `outcome`.
    pub open spec fn collection_action(self, target: Target, outcome: CreateOutcome) -> ActionView {
        let now = self.after_collection(target, outcome);
        if self.awaits_collection(target) {
            match now.target(target) {
                TargetState::Attempting { .. } => ActionView::Ensure(target),
                TargetState::Fatal => ActionView::Abort,
                TargetState::Ready => if now.seed is Counting {
                    ActionView::Count
                } else {
                    ActionView::Wait
                },
            }
        } else {
            self.standing_action()
        }
    }

    /// The state after the store was counted. `count` is `None` where the store
    /// failed; `hash` is the hash of the default secret, `None` where the hashing
    /// failed, and is looked at only for an empty store.
    pub open spec fn after_count(self, count: Option<u64>, hash: Option<Seq<char>>) -> Sequencer {
        if self.phase() == Phase::Counting {
            match count {
                None => Sequencer { seed: SeedState::Fatal, ..self },
                Some(n) => if n > 0 {
                    Sequencer { seed: SeedState::Complete, ..self }
                } else if hash is Some {
                    Sequencer { seed: SeedState::Creating, ..self }
                } else {
                    Sequencer { seed: SeedState::Fatal, ..self }
                },
            }
        } else {
            self
        }
    }

    /// The action after the store was counted.
    pub open spec fn count_action(self, count: Option<u64>, hash: Option<Seq<char>>) -> ActionView {
        if self.phase() == Phase::Counting {
            match count {
                None => ActionView::Abort,
                Some(n) => if n > 0 {
                    ActionView::Finish
                } else {
                    match hash {
                        Some(h) => ActionView::Create(default_administrator(h)),
                        None => ActionView::Abort,
                    }
                },
            }
        } else {
            self.standing_action()
        }
    }

    /// Whether the hash of the default secret is needed to take `count`.
    pub open spec fn needs_hash(self, count: Option<u64>) -> bool {
        self.phase() == Phase::Counting && count == Some(0u64)
    }

    /// The state after the store answered the creation of the default
    /// administrator.
    pub open spec fn after_creation(self, stored: bool) -> Sequencer {
        if self.phase() == Phase::Seeding {
            if stored {
                Sequencer { seed: SeedState::Complete, ..self }
            } else {
                Sequencer { seed: SeedState::Fatal, ..self }
            }
        } else {
            self
        }
    }

    /// The action after the store answered the creation.
    pub open spec fn creation_action(self, stored: bool) -> ActionView {
        if self.phase() == Phase::Seeding {
            if stored {
                ActionView::Finish
            } else {
                ActionView::Abort
            }
        } else {
            self.standing_action()
        }
    }

    /// Starts the sequence. The program then tries to create both collections,
    /// side by side, and reports each outcome with `collection_done`.
    pub fn new(budget: u8) -> (s: Sequencer)
        ensures
            s == Sequencer::initial(budget),
            s.wf(),
            s.phase() == Phase::Provisioning,
    {
        Sequencer {
            resources: TargetState::start(budget),
            principals: TargetState::start(budget),
            seed: SeedState::Waiting,
        }
    }

    /// The phase that the sequence is in.
    pub fn current_phase(&self) -> (phase: Phase)
        ensures
            phase == self.phase(),
    {
        if self.is_fatal() {
            Phase::Fatal
        } else {
            match self.seed {
                SeedState::Waiting => Phase::Provisioning,
                SeedState::Counting => Phase::Counting,
                SeedState::Creating => Phase::Seeding,
                SeedState::Complete => Phase::Ready,
                SeedState::Fatal => Phase::Fatal,
            }
        }
    }

    /// Whether the process must end.
    pub fn is_fatal(&self) -> (fatal: bool)
        ensures
            fatal == (self.phase() == Phase::Fatal),
    {
        let lost_resources = match self.resources {
            TargetState::Fatal => true,
            _ => false,
        };
        let lost_principals = match self.principals {
            TargetState::Fatal => true,
            _ => false,
        };
        let lost_seed = match self.seed {
            SeedState::Fatal => true,
            _ => false,
        };
        lost_resources || lost_principals || lost_seed
    }

    fn state_of(&self, target: Target) -> (state: TargetState)
        ensures
            state == self.target(target),
    {
        match target {
            Target::Resources => self.resources,
            Target::Principals => self.principals,
        }
    }

    fn standing(&self) -> (action: Action)
        ensures
            action@ == self.standing_action(),
    {
        match self.current_phase() {
            Phase::Fatal => Action::Abort,
            Phase::Ready => Action::Finish,
            _ => Action::Wait,
        }
    }

    /// Takes the outcome of one attempt to create a collection. A failed attempt
    /// is tried again while the collection's budget lasts; the counting starts
    /// with the second collection that becomes ready; an outcome that is not
    /// expected changes nothing.
    pub fn collection_done(&mut self, target: Target, outcome: CreateOutcome) -> (action: Action)
        ensures
            *final(self) == old(self).after_collection(target, outcome),
            action@ == old(self).collection_action(target, outcome),
            old(self).wf() ==> final(self).wf(),
            action@ == ActionView::Count ==> final(self).phase() == Phase::Counting,
            !(action@ is Create),
            old(self).phase() == Phase::Fatal ==> final(self).phase() == Phase::Fatal,
    {
        let before = self.state_of(target);
        let expected = match self.current_phase() {
            Phase::Provisioning => !before.is_terminal(),
            _ => false,
        };
        if !expected {
            return self.standing();
        }
        let state = before.step(outcome);
        match target {
            Target::Resources => {
                self.resources = state;
            },
            Target::Principals => {
                self.principals = state;
            },
        }
        match state {
            TargetState::Attempting { .. } => Action::Ensure(target),
            TargetState::Fatal => Action::Abort,
            TargetState::Ready => {
                let other = match target {
                    Target::Resources => self.principals,
                    Target::Principals => self.resources,
                };
                match other {
                    TargetState::Ready => {
                        self.seed = SeedState::Counting;
                        Action::Count
                    },
                    _ => Action::Wait,
                }
            },
        }
    }

    /// Takes the number of principals in the store, and the hash of the default
    /// secret for the case that there is none. A store that could not be counted
    /// and a secret that could not be hashed are fatal; a store that holds a
    /// principal is ready; into an empty store the default administrator is
    /// created.
    pub fn take_count(&mut self, count: Option<u64>, hash: Option<String>) -> (action: Action)
        ensures
            *final(self) == old(self).after_count(count, plain(hash)),
            action@ == old(self).count_action(count, plain(hash)),
            old(self).wf() ==> final(self).wf(),
            action@ is Create <==> old(self).needs_hash(count) && hash is Some,
            old(self).phase() == Phase::Fatal ==> final(self).phase() == Phase::Fatal,
    {
        match self.current_phase() {
            Phase::Counting => {},
            _ => {
                return self.standing();
            },
        }
        match count {
            None => {
                self.seed = SeedState::Fatal;
                Action::Abort
            },
            Some(n) => {
                if n > 0 {
                    self.seed = SeedState::Complete;
                    Action::Finish
                } else {
                    match hash {
                        Some(h) => {
                            self.seed = SeedState::Creating;
                            Action::Create(NewPrincipal::administrator(h))
                        },
                        None => {
                            self.seed = SeedState::Fatal;
                            Action::Abort
                        },
                    }
                }
            },
        }
    }

    /// Takes the number of principals in the store, `None` where the store could
    /// not be counted. For an empty store the default secret is hashed here, and
    /// the administrator that is to be created carries a hash that accepts it.
    pub fn counted(&mut self, count: Option<u64>) -> (action: Action)
        ensures
            old(self).wf() ==> final(self).wf(),
            !old(self).needs_hash(count) ==> *final(self) == old(self).after_count(count, None)
                && action@ == old(self).count_action(count, None),
            old(self).needs_hash(count) ==> exists|hash: Option<Seq<char>>|
                {
                    &&& *final(self) == old(self).after_count(count, hash)
                    &&& action@ == old(self).count_action(count, hash)
                    &&& hash matches Some(h) ==> Verdict::of(bcrypt_verdict(default_secret(), h))
                        == Verdict::Match
                },
            action@ is Create ==> old(self).needs_hash(count),
            old(self).phase() == Phase::Fatal ==> final(self).phase() == Phase::Fatal,
    {
        let needed = match self.current_phase() {
            Phase::Counting => match count {
                Some(n) => n == 0,
                None => false,
            },
            _ => false,
        };
        if needed {
            let hash = hash_secret("pass");
            let ghost plain = plain(hash);
            let action = self.take_count(count, hash);
            proof {
                assert(*self == old(self).after_count(count, plain));
                assert(action@ == old(self).count_action(count, plain));
            }
            action
        } else {
            let action = self.take_count(count, None);
            action
        }
    }

    /// Takes the store's answer to the creation of the default administrator.
    /// The creation is not tried again: a failure is fatal.
    pub fn created(&mut self, stored: bool) -> (action: Action)
        ensures
            *final(self) == old(self).after_creation(stored),
            action@ == old(self).creation_action(stored),
            old(self).wf() ==> final(self).wf(),
            !(action@ is Create),
            old(self).phase() == Phase::Fatal ==> final(self).phase() == Phase::Fatal,
    {
        match self.current_phase() {
            Phase::Seeding => {},
            _ => {
                return self.standing();
            },
        }
        if stored {
            self.seed = SeedState::Complete;
            Action::Finish
        } else {
            self.seed = SeedState::Fatal;
            Action::Abort
        }
    }
}

/// The principals are counted only when both collections are ready, and every
/// step keeps it so.
pub proof fn law_seeding_follows_provisioning(s: Sequencer, target: Target, outcome: CreateOutcome)
    requires
        s.wf(),
    ensures
        s.after_collection(target, outcome).wf(),
        s.collection_action(target, outcome) == ActionView::Count ==> {
            &&& s.after_collection(target, outcome).resources is Ready
            &&& s.after_collection(target, outcome).principals is Ready
            &&& s.after_collection(target, outcome).phase() == Phase::Counting
        },
        s.after_collection(target, outcome).phase() == Phase::Counting ==> {
            &&& s.after_collection(target, outcome).resources is Ready
            &&& s.after_collection(target, outcome).principals is Ready
        },
{
}

/// A fatal sequence stays fatal, whatever is reported to it.
pub proof fn law_fatal_is_final(
    s: Sequencer,
    target: Target,
    outcome: CreateOutcome,
    count: Option<u64>,
    hash: Option<Seq<char>>,
    stored: bool,
)
    requires
        s.phase() == Phase::Fatal,
    ensures
        s.after_collection(target, outcome) == s,
        s.after_count(count, hash) == s,
        s.after_creation(stored) == s,
        s.collection_action(target, outcome) == ActionView::Abort,
        s.count_action(count, hash) == ActionView::Abort,
        s.creation_action(stored) == ActionView::Abort,
{
}

/// An administrator is created at most once: only the count of an empty store
/// asks for it, and after it the sequence is no longer counting.
pub proof fn law_one_administrator(
    s: Sequencer,
    count: Option<u64>,
    hash: Option<Seq<char>>,
    again: Option<u64>,
    other: Option<Seq<char>>,
)
    ensures
        s.count_action(count, hash) is Create ==> count == Some(0u64) && s.phase()
            == Phase::Counting,
        s.count_action(count, hash) is Create ==> s.after_count(count, hash).phase()
            == Phase::Seeding,
        !(s.after_count(count, hash).count_action(again, other) is Create),
{
}

/// Start-up on an empty store: once both collections are settled, in either
/// order and at the first attempt, the store is counted; the count of zero asks
/// for the default administrator, which has the administrator flag; and when the
/// store has taken it the sequence is ready.
pub proof fn law_empty_store_is_seeded(
    budget: u8,
    first: Target,
    one: CreateOutcome,
    two: CreateOutcome,
    hash: Seq<char>,
)
    requires
        one.settles(),
        two.settles(),
    ensures
        ({
            let second = if first == Target::Resources {
                Target::Principals
            } else {
                Target::Resources
            };
            let s0 = Sequencer::initial(budget);
            let s1 = s0.after_collection(first, one);
            let s2 = s1.after_collection(second, two);
            let s3 = s2.after_count(Some(0u64), Some(hash));
            let s4 = s3.after_creation(true);
            &&& s0.collection_action(first, one) == ActionView::Wait
            &&& s1.collection_action(second, two) == ActionView::Count
            &&& s2.count_action(Some(0u64), Some(hash)) == ActionView::Create(
                default_administrator(hash),
            )
            &&& default_administrator(hash).permissions@[0]
            &&& s3.creation_action(true) == ActionView::Finish
            &&& s4.phase() == Phase::Ready
        }),
{
}

/// Start-up on a store that holds a principal creates none.
pub proof fn law_seeded_store_is_left_alone(s: Sequencer, n: u64, hash: Option<Seq<char>>)
    requires
        s.phase() == Phase::Counting,
        n > 0,
    ensures
        s.count_action(Some(n), hash) == ActionView::Finish,
        s.after_count(Some(n), hash).phase() == Phase::Ready,
{
}

/// The two collections do not wait for each other: whichever of two outcomes
/// for different collections is reported first, the sequence ends up in the
/// same phase, and in the same state unless a collection was lost.
pub proof fn law_order_of_outcomes_is_irrelevant(
    s: Sequencer,
    resources: CreateOutcome,
    principals: CreateOutcome,
)
    ensures
        ({
            let one = s.after_collection(Target::Resources, resources).after_collection(
                Target::Principals,
                principals,
            );
            let other = s.after_collection(Target::Principals, principals).after_collection(
                Target::Resources,
                resources,
            );
            &&& one.phase() == other.phase()
            &&& one.phase() != Phase::Fatal ==> one == other
        }),
{
}

} // verus!
