//! A state machine guarded by a mutex, so that it can be driven from
//! several threads, which recovers from a transition that panicked.
use std::sync::{Arc, Mutex, MutexGuard, PoisonError};
use vstd::prelude::*;

use crate::machine::{Machine, Response, Transition};

verus! {

#[verifier::external_type_specification]
#[verifier::external_body]
#[verifier::reject_recursive_types(T)]
pub struct ExMutex<T: ?Sized>(Mutex<T>);

#[verifier::external_type_specification]
#[verifier::external_body]
#[verifier::reject_recursive_types(T)]
pub struct ExMutexGuard<'a, T: ?Sized + 'a>(MutexGuard<'a, T>);

#[verifier::external_type_specification]
#[verifier::external_body]
#[verifier::reject_recursive_types(T)]
pub struct ExPoisonError<T>(PoisonError<T>);

/// Relies on `Mutex::new`: a fresh, unlocked and unpoisoned mutex.
#[verifier::external_body]
fn new_mutex<T>(t: T) -> (m: Mutex<T>) {
    Mutex::new(t)
}

/// Relies on `Mutex::lock`: blocks until the lock is held; the guard comes
/// back as an error when a previous holder panicked while holding it.
#[verifier::external_body]
fn lock_mutex<T>(m: &Mutex<T>) -> (r: Result<MutexGuard<'_, T>, PoisonError<MutexGuard<'_, T>>>) {
    m.lock()
}

/// Relies on `PoisonError::into_inner`: the guard of a poisoned lock.
#[verifier::external_body]
fn recover_guard<'a, T>(e: PoisonError<MutexGuard<'a, T>>) -> (g: MutexGuard<'a, T>) {
    e.into_inner()
}

/// Relies on `Mutex::clear_poison`: the lock is no longer marked as
/// poisoned.
#[verifier::external_body]
fn clear_poison<T>(m: &Mutex<T>) {
    m.clear_poison()
}

/// Relies on `std::mem::replace` through the guard: puts `t` in the
/// guarded place and returns what was there.
#[verifier::external_body]
fn replace_guarded<T>(g: &mut MutexGuard<'_, T>, t: T) -> (old_value: T) {
    std::mem::replace(&mut **g, t)
}

/// A machine that can be swapped out for a cheap placeholder while one of
/// its transitions runs, and restarted from that placeholder.
pub trait Replaceable: Machine {
    /// What a restart promises of the context (`before` and `after` it)
    /// and of its response.
    open spec fn restart_post(
        &self,
        before: Self::Context,
        after: Self::Context,
        r: Response<Self, Self::Seed>,
    ) -> bool {
        true
    }

    /// The placeholder left in the lock while a transition runs; it must be
    /// cheap, as it is built on every transition.
    fn empty() -> Self;

    /// Restarts the machine from the placeholder left behind by a
    /// transition that panicked. The event that triggered the call is
    /// discarded. An implementation that cannot resume safely should panic.
    fn restart(self, ctx: &mut Self::Context) -> (r: Response<Self, Self::Seed>)
        ensures
            self.restart_post(*old(ctx), *final(ctx), r),
    ;
}

/// What a guarded transition does with the machine it takes out of the lock.
pub enum Step {
    /// Run the delivered transition.
    Apply(Transition),
    /// The lock was poisoned: restart from the placeholder and drop the event.
    Restart,
}

/// The step for a transition that found the lock poisoned or not.
pub open spec fn plan_spec(poisoned: bool, t: Transition) -> Step {
    if poisoned {
        Step::Restart
    } else {
        Step::Apply(t)
    }
}

/// The step for a transition that found the lock poisoned or not.
pub fn plan(poisoned: bool, t: Transition) -> (r: Step)
    ensures
        r == plan_spec(poisoned, t),
{
    if poisoned {
        Step::Restart
    } else {
        Step::Apply(t)
    }
}

/// What running `step` on `fsm` promises: the promise of the restart, or
/// of the transition it applies, with that transition's events.
pub open spec fn step_post<M: Replaceable>(
    fsm: M,
    step: Step,
    before: M::Context,
    after: M::Context,
    r: Response<M, M::Seed>,
) -> bool {
    match step {
        Step::Restart => fsm.restart_post(before, after, r),
        Step::Apply(Transition::Ready(events)) => fsm.ready_post(events, before, after, r),
        Step::Apply(Transition::Spawned) => fsm.spawned_post(before, after, r),
        Step::Apply(Transition::Timeout) => fsm.timeout_post(before, after, r),
        Step::Apply(Transition::Wakeup) => fsm.wakeup_post(before, after, r),
    }
}

/// Runs `step` on `fsm`.
pub fn run_step<M: Replaceable>(fsm: M, step: Step, ctx: &mut M::Context) -> (r: Response<M, M::Seed>)
    ensures
        step_post(fsm, step, *old(ctx), *final(ctx), r),
{
    match step {
        Step::Restart => fsm.restart(ctx),
        Step::Apply(Transition::Ready(events)) => fsm.ready(events, ctx),
        Step::Apply(Transition::Spawned) => fsm.spawned(ctx),
        Step::Apply(Transition::Timeout) => fsm.timeout(ctx),
        Step::Apply(Transition::Wakeup) => fsm.wakeup(ctx),
    }
}

/// What a guarded transition `t` on `g` promises: the machine taken out of
/// the lock went through the step `plan_spec` picks (the restart when the
/// lock was poisoned, else `t` itself), and the answer is that step's
/// response with `g` as the successor.
pub open spec fn guarded_post<M: Replaceable>(
    g: Mutexed<M>,
    t: Transition,
    before: M::Context,
    after: M::Context,
    r: Response<Mutexed<M>, M::Seed>,
) -> bool {
    exists|fsm: M, poisoned: bool, inner: Response<M, M::Seed>|
        #[trigger] step_post(fsm, plan_spec(poisoned, t), before, after, inner)
            && r == inner.with_machine(g)
}

/// A machine behind a shared mutex. Every handle made by `share` drives
/// the same machine, one transition at a time.
#[verifier::reject_recursive_types(M)]
pub struct Mutexed<M>(pub Arc<Mutex<M>>);

impl<M: Replaceable> Mutexed<M> {
    /// Guards the machine `m`.
    pub fn new(m: M) -> (r: Mutexed<M>) {
        Mutexed(Arc::new(new_mutex(m)))
    }

    /// Another handle to the same guarded machine.
    pub fn share(&self) -> (r: Mutexed<M>)
        ensures
            r == *self,
    {
        Mutexed(self.0.clone())
    }

    /// Guards the machine a creation answered with; a creation that ends
    /// the machine is passed through.
    pub fn guard_created<N>(created: Response<M, N>) -> (r: Response<Mutexed<M>, N>)
        ensures
            exists|g: Mutexed<M>| r == created.with_machine(g),
    {
        let ghost orig = created;
        let ghost some: Mutexed<M> = vstd::pervasive::arbitrary();
        match created {
            Response::Normal(m) => {
                let g = Mutexed::new(m);
                assert(Response::<Mutexed<M>, N>::Normal(g) == orig.with_machine(g));
                Response::Normal(g)
            },
            Response::Deadline(m, d) => {
                let g = Mutexed::new(m);
                assert(Response::<Mutexed<M>, N>::Deadline(g, d) == orig.with_machine(g));
                Response::Deadline(g, d)
            },
            Response::Spawn(m, n) => {
                let g = Mutexed::new(m);
                let r = Response::Spawn(g, n);
                assert(r == orig.with_machine(g));
                r
            },
            Response::Done => {
                assert(Response::<Mutexed<M>, N>::Done == orig.with_machine(some));
                Response::Done
            },
            Response::Error(e) => {
                let r = Response::Error(e);
                assert(r == orig.with_machine(some));
                r
            },
        }
    }

    /// Delivers `t` to the guarded machine. Holding the lock, it swaps the
    /// machine out for a placeholder, runs the transition (or the restart,
    /// if a previous transition panicked, after which the lock is marked
    /// clean again) and puts the successor back. The answer is the inner
    /// machine's, with this handle as the successor.
    ///
    /// A transition must not drive its own `Mutexed`: locking a mutex the
    /// thread already holds may panic or deadlock.
    pub fn transition(self, t: Transition, ctx: &mut M::Context) -> (r: Response<Mutexed<M>, M::Seed>)
        ensures
            guarded_post(self, t, *old(ctx), *final(ctx), r),
    {
        let ghost c0 = *ctx;
        let ghost mut inner: Response<M, M::Seed>;
        let ghost mut taken: M;
        let ghost mut was_poisoned: bool;
        let shape = {
            let (mut guard, poisoned) = match lock_mutex(&*self.0) {
                Ok(g) => (g, false),
                Err(e) => (recover_guard(e), true),
            };
            let fsm = replace_guarded(&mut guard, M::empty());
            proof {
                taken = fsm;
                was_poisoned = poisoned;
            }
            let res = run_step(fsm, plan(poisoned, t), ctx);
            proof {
                inner = res;
            }
            let (next, shape) = res.swap_machine(());
            match next {
                Some(m) => {
                    let _placeholder = replace_guarded(&mut guard, m);
                },
                None => {},
            }
            if poisoned {
                // the restart completed: later transitions take the clean path
                clear_poison(&*self.0);
            }
            shape
        };
        let ghost me = self;
        let (_unit, r) = shape.swap_machine(self);
        assert(r == inner.with_machine(me));
        assert(step_post(taken, plan_spec(was_poisoned, t), c0, *ctx, inner));
        r
    }
}

impl<M: Replaceable> Machine for Mutexed<M> {
    type Context = M::Context;
    type Seed = M::Seed;

    open spec fn create_post(
        seed: M::Seed,
        before: M::Context,
        after: M::Context,
        r: Response<Self, rotor::Void>,
    ) -> bool {
        exists|inner: Response<M, rotor::Void>, g: Mutexed<M>|
            #![trigger M::create_post(seed, before, after, inner), inner.with_machine(g)]
            M::create_post(seed, before, after, inner) && r == inner.with_machine(g)
    }

    open spec fn ready_post(
        &self,
        events: rotor::EventSet,
        before: M::Context,
        after: M::Context,
        r: Response<Self, M::Seed>,
    ) -> bool {
        guarded_post(*self, Transition::Ready(events), before, after, r)
    }

    open spec fn spawned_post(&self, before: M::Context, after: M::Context, r: Response<Self, M::Seed>) -> bool {
        guarded_post(*self, Transition::Spawned, before, after, r)
    }

    open spec fn timeout_post(&self, before: M::Context, after: M::Context, r: Response<Self, M::Seed>) -> bool {
        guarded_post(*self, Transition::Timeout, before, after, r)
    }

    open spec fn wakeup_post(&self, before: M::Context, after: M::Context, r: Response<Self, M::Seed>) -> bool {
        guarded_post(*self, Transition::Wakeup, before, after, r)
    }

    fn create(seed: M::Seed, ctx: &mut M::Context) -> Response<Self, rotor::Void> {
        let created = M::create(seed, ctx);
        let ghost inner = created;
        let r = Mutexed::guard_created(created);
        assert(M::create_post(seed, *old(ctx), *ctx, inner));
        r
    }

    fn ready(self, events: rotor::EventSet, ctx: &mut M::Context) -> Response<Self, M::Seed> {
        self.transition(Transition::Ready(events), ctx)
    }

    fn spawned(self, ctx: &mut M::Context) -> Response<Self, M::Seed> {
        self.transition(Transition::Spawned, ctx)
    }

    fn timeout(self, ctx: &mut M::Context) -> Response<Self, M::Seed> {
        self.transition(Transition::Timeout, ctx)
    }

    fn wakeup(self, ctx: &mut M::Context) -> Response<Self, M::Seed> {
        self.transition(Transition::Wakeup, ctx)
    }
}

} // verus!
