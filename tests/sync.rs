use std::sync::Arc;

use rotor_tools::machine::{Machine, Response, Transition};
use rotor_tools::sync::{plan, Mutexed, Replaceable, Step};

/// Counts the transitions it went through; the context logs what it saw.
struct Counter(u32);

impl Machine for Counter {
    type Context = Vec<u32>;
    type Seed = u8;

    fn create(seed: u8, ctx: &mut Vec<u32>) -> Response<Self, rotor::Void> {
        ctx.push(seed as u32);
        Response::Normal(Counter(seed as u32))
    }

    fn ready(self, _events: rotor::EventSet, ctx: &mut Vec<u32>) -> Response<Self, u8> {
        ctx.push(self.0);
        Response::Spawn(Counter(self.0 + 1), 9)
    }
    fn spawned(self, ctx: &mut Vec<u32>) -> Response<Self, u8> {
        ctx.push(self.0);
        Response::Done
    }
    fn timeout(self, ctx: &mut Vec<u32>) -> Response<Self, u8> {
        ctx.push(self.0);
        Response::Normal(Counter(self.0 + 1))
    }
    fn wakeup(self, ctx: &mut Vec<u32>) -> Response<Self, u8> {
        ctx.push(self.0);
        Response::Error(String::from("stop"))
    }
}

impl Replaceable for Counter {
    fn empty() -> Counter {
        Counter(0)
    }
    fn restart(self, _ctx: &mut Vec<u32>) -> Response<Self, u8> {
        Response::Normal(Counter(1000))
    }
}

fn machine_of(r: Response<Mutexed<Counter>, u8>) -> Mutexed<Counter> {
    match r {
        Response::Normal(m) => m,
        Response::Deadline(m, _) => m,
        Response::Spawn(m, _) => m,
        _ => panic!("machine stopped"),
    }
}

#[test]
fn transitions_run_on_the_guarded_machine() {
    let mut seen = Vec::new();
    let m = Mutexed::new(Counter(5));
    let shared = m.share();
    let m = machine_of(m.timeout(&mut seen));
    let m = machine_of(m.timeout(&mut seen));
    let other = machine_of(shared.transition(Transition::Timeout, &mut seen));
    assert_eq!(seen, vec![5, 6, 7]);
    assert!(Arc::ptr_eq(&m.0, &other.0));
}

#[test]
fn responses_pass_through() {
    let mut seen = Vec::new();
    let m = Mutexed::new(Counter(1));
    let keep = m.share();
    match m.ready(rotor::EventSet::readable(), &mut seen) {
        Response::Spawn(_, seed) => assert_eq!(seed, 9),
        _ => panic!("expected a spawn"),
    }
    let again = keep.share();
    assert!(matches!(again.spawned(&mut seen), Response::Done));
    match keep.wakeup(&mut seen) {
        Response::Error(e) => assert_eq!(e, "stop"),
        _ => panic!("expected an error"),
    }
    // after `Done` the placeholder is what remains in the lock
    assert_eq!(seen, vec![1, 2, 0]);
}

#[test]
fn create_guards_the_new_machine() {
    let mut seen = Vec::new();
    let created: Response<Counter, u8> = Response::Deadline(Counter(3), rotor_tools::time::Time::zero());
    match Mutexed::guard_created(created) {
        Response::Deadline(m, d) => {
            assert_eq!(d.ms, 1);
            let _ = m.timeout(&mut seen);
        }
        _ => panic!("expected a deadline"),
    }
    assert_eq!(seen, vec![3]);
    assert!(matches!(Mutexed::<Counter>::guard_created::<u8>(Response::Done), Response::Done));
}

#[test]
fn poisoned_lock_restarts_and_drops_the_event() {
    assert!(matches!(plan(true, Transition::Timeout), Step::Restart));
    assert!(matches!(plan(false, Transition::Wakeup), Step::Apply(Transition::Wakeup)));
}

#[test]
fn swap_machine_keeps_the_shape() {
    let r: Response<u32, u8> = Response::Spawn(4, 2);
    let (m, shaped) = r.swap_machine("x");
    assert_eq!(m, Some(4));
    assert!(matches!(shaped, Response::Spawn("x", 2)));
    let r: Response<u32, u8> = Response::Done;
    let (m, shaped) = r.swap_machine("x");
    assert_eq!(m, None);
    assert!(matches!(shaped, Response::Done));
}

#[test]
fn create_builds_the_inner_machine_from_its_seed() {
    let mut seen = Vec::new();
    let m = match <Mutexed<Counter> as Machine>::create(4, &mut seen) {
        Response::Normal(m) => m,
        _ => panic!("expected a machine"),
    };
    let _ = m.timeout(&mut seen);
    assert_eq!(seen, vec![4, 4]);
}
