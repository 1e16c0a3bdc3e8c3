use redirector::bootstrap::{Action, NewPrincipal, Phase, SeedState, Sequencer, Target};
use redirector::guard::{authorize, Credentials, Lookup, Principal};
use redirector::permission::{Capability, Permission};
use redirector::provision::{CreateOutcome, TargetState, RETRY_BUDGET};
use redirector::secret::{verify_secret, Verdict};

/// A store in memory that fails as it is told to.
struct Store {
    resources: Vec<CreateOutcome>,
    principals_collection: Vec<CreateOutcome>,
    principals: Option<Vec<Principal>>,
    accepts_create: bool,
    attempts: usize,
    counts: usize,
    creations: usize,
}

impl Store {
    fn empty() -> Store {
        Store {
            resources: vec![CreateOutcome::Created],
            principals_collection: vec![CreateOutcome::Created],
            principals: Some(Vec::new()),
            accepts_create: true,
            attempts: 0,
            counts: 0,
            creations: 0,
        }
    }

    fn ensure(&mut self, target: Target) -> CreateOutcome {
        self.attempts += 1;
        let script = match target {
            Target::Resources => &mut self.resources,
            Target::Principals => &mut self.principals_collection,
        };
        if script.is_empty() {
            CreateOutcome::AlreadyExists
        } else {
            script.remove(0)
        }
    }

    fn count(&mut self) -> Option<u64> {
        self.counts += 1;
        self.principals.as_ref().map(|p| p.len() as u64)
    }

    fn create(&mut self, new: NewPrincipal) -> bool {
        self.creations += 1;
        if !self.accepts_create {
            return false;
        }
        let list = self.principals.as_mut().unwrap();
        if list.iter().any(|p| p.name == new.name) {
            return false;
        }
        let id = [list.len() as u8 + 1; 12];
        list.push(Principal {
            id,
            name: new.name,
            secret_hash: new.secret_hash,
            permissions: new.permissions,
        });
        true
    }
}

/// Runs the sequence against the store as the program does.
fn run(store: &mut Store, budget: u8) -> Sequencer {
    let mut s = Sequencer::new(budget);
    let mut queue = vec![Action::Ensure(Target::Resources), Action::Ensure(Target::Principals)];
    let mut steps = 0;
    while !queue.is_empty() {
        steps += 1;
        assert!(steps < 1000);
        let next = match queue.remove(0) {
            Action::Ensure(target) => {
                let outcome = store.ensure(target);
                s.collection_done(target, outcome)
            }
            Action::Count => {
                let count = store.count();
                s.counted(count)
            }
            Action::Create(principal) => {
                let stored = store.create(principal);
                s.created(stored)
            }
            Action::Wait => continue,
            Action::Finish | Action::Abort => break,
        };
        queue.push(next);
    }
    s
}

#[test]
fn empty_store_gets_one_administrator() {
    let mut store = Store::empty();
    let s = run(&mut store, RETRY_BUDGET);
    assert_eq!(s.current_phase(), Phase::Ready);
    assert!(!s.is_fatal());
    assert_eq!(store.count(), Some(1));
    let admin = &store.principals.as_ref().unwrap()[0];
    assert_eq!(admin.name, "admin");
    assert!(admin.permissions.admin);
    assert!(admin.permissions.has(Capability::Admin));
    assert_eq!(admin.permissions, Permission::administrator());
    assert_eq!(verify_secret("pass", &admin.secret_hash), Verdict::Match);
    assert_eq!(store.creations, 1);
}

#[test]
fn seeded_administrator_can_log_in() {
    let mut store = Store::empty();
    run(&mut store, RETRY_BUDGET);
    let admin = store.principals.as_ref().unwrap()[0].clone();
    let claim =
        Credentials::extract(Some("admin".to_string()), Some("pass".to_string())).unwrap();
    let got = authorize(&claim, Lookup::Found(admin.clone()));
    assert_eq!(got, Ok(admin));
}

#[test]
fn second_run_creates_no_second_administrator() {
    let mut store = Store::empty();
    run(&mut store, RETRY_BUDGET);
    let s = run(&mut store, RETRY_BUDGET);
    assert_eq!(s.current_phase(), Phase::Ready);
    assert_eq!(store.count(), Some(1));
    assert_eq!(store.creations, 1);
}

#[test]
fn existing_collections_use_no_attempt_of_the_budget() {
    let mut store = Store::empty();
    store.resources = vec![CreateOutcome::AlreadyExists];
    store.principals_collection = vec![CreateOutcome::AlreadyExists];
    let s = run(&mut store, 1);
    assert_eq!(s.current_phase(), Phase::Ready);
    assert_eq!(store.attempts, 2);
}

#[test]
fn two_transient_failures_under_budget_three() {
    let mut store = Store::empty();
    store.resources = vec![
        CreateOutcome::Failed,
        CreateOutcome::Failed,
        CreateOutcome::Created,
    ];
    let s = run(&mut store, 3);
    assert_eq!(s.current_phase(), Phase::Ready);
    assert_eq!(s.resources, TargetState::Ready);
    assert_eq!(store.attempts, 4);
    assert_eq!(store.count(), Some(1));
}

#[test]
fn two_transient_failures_under_budget_one() {
    let mut store = Store::empty();
    store.principals_collection = vec![
        CreateOutcome::Failed,
        CreateOutcome::Failed,
        CreateOutcome::Created,
    ];
    let s = run(&mut store, 1);
    assert_eq!(s.current_phase(), Phase::Fatal);
    assert!(s.is_fatal());
    assert_eq!(s.principals, TargetState::Fatal);
    assert_eq!(store.counts, 0);
    assert_eq!(store.creations, 0);
}

#[test]
fn steps_of_a_plain_start() {
    let mut s = Sequencer::new(3);
    assert_eq!(s.current_phase(), Phase::Provisioning);
    assert_eq!(
        s.collection_done(Target::Principals, CreateOutcome::Failed),
        Action::Ensure(Target::Principals)
    );
    assert_eq!(s.principals, TargetState::Attempting { remaining: 2 });
    assert_eq!(
        s.collection_done(Target::Resources, CreateOutcome::Created),
        Action::Wait
    );
    assert_eq!(s.seed, SeedState::Waiting);
    assert_eq!(
        s.collection_done(Target::Principals, CreateOutcome::AlreadyExists),
        Action::Count
    );
    assert_eq!(s.current_phase(), Phase::Counting);
    assert_eq!(s.counted(Some(5)), Action::Finish);
    assert_eq!(s.current_phase(), Phase::Ready);
    assert_eq!(s.seed, SeedState::Complete);
}

#[test]
fn count_is_not_taken_before_both_are_ready() {
    let mut s = Sequencer::new(3);
    assert_eq!(s.counted(Some(0)), Action::Wait);
    assert_eq!(s, Sequencer::new(3));
    s.collection_done(Target::Resources, CreateOutcome::Created);
    assert_eq!(s.counted(Some(0)), Action::Wait);
    assert_eq!(s.created(true), Action::Wait);
    assert_eq!(s.current_phase(), Phase::Provisioning);
}

#[test]
fn uncountable_store_is_fatal() {
    let mut store = Store::empty();
    store.principals = None;
    let s = run(&mut store, 3);
    assert_eq!(s.current_phase(), Phase::Fatal);
    assert_eq!(s.seed, SeedState::Fatal);
    assert_eq!(store.creations, 0);
}

#[test]
fn failed_creation_is_fatal_and_not_repeated() {
    let mut store = Store::empty();
    store.accepts_create = false;
    let s = run(&mut store, 3);
    assert_eq!(s.current_phase(), Phase::Fatal);
    assert_eq!(store.creations, 1);
    assert_eq!(store.count(), Some(0));
}

#[test]
fn failed_hashing_is_fatal() {
    let mut s = Sequencer::new(3);
    s.collection_done(Target::Resources, CreateOutcome::Created);
    s.collection_done(Target::Principals, CreateOutcome::Created);
    assert_eq!(s.take_count(Some(0), None), Action::Abort);
    assert_eq!(s.current_phase(), Phase::Fatal);
}

#[test]
fn take_count_builds_the_default_administrator() {
    let mut s = Sequencer::new(3);
    s.collection_done(Target::Resources, CreateOutcome::Created);
    s.collection_done(Target::Principals, CreateOutcome::Created);
    let action = s.take_count(Some(0), Some("hash".to_string()));
    assert_eq!(
        action,
        Action::Create(NewPrincipal {
            name: "admin".to_string(),
            secret_hash: "hash".to_string(),
            permissions: Permission::from_arr([1, 0, 0, 0, 0, 0]),
        })
    );
    assert_eq!(s.current_phase(), Phase::Seeding);
    assert_eq!(s.take_count(Some(0), Some("hash".to_string())), Action::Wait);
    assert_eq!(s.created(true), Action::Finish);
    assert_eq!(s.current_phase(), Phase::Ready);
    assert_eq!(s.created(true), Action::Finish);
    assert_eq!(s.counted(Some(0)), Action::Finish);
}

#[test]
fn fatal_sequence_stays_fatal() {
    let mut s = Sequencer::new(1);
    assert_eq!(
        s.collection_done(Target::Resources, CreateOutcome::Failed),
        Action::Abort
    );
    let lost = s;
    assert_eq!(
        s.collection_done(Target::Principals, CreateOutcome::Created),
        Action::Abort
    );
    assert_eq!(s.counted(Some(0)), Action::Abort);
    assert_eq!(s.created(true), Action::Abort);
    assert_eq!(s, lost);
}

#[test]
fn late_outcome_for_a_ready_collection_changes_nothing() {
    let mut s = Sequencer::new(3);
    s.collection_done(Target::Resources, CreateOutcome::Created);
    let before = s;
    assert_eq!(
        s.collection_done(Target::Resources, CreateOutcome::Failed),
        Action::Wait
    );
    assert_eq!(s, before);
}

#[test]
fn default_administrator_fields() {
    let p = NewPrincipal::administrator("h".to_string());
    assert_eq!(p.name, "admin");
    assert_eq!(p.secret_hash, "h");
    assert_eq!(p.permissions.encode(), [1, 0, 0, 0, 0, 0]);
}
