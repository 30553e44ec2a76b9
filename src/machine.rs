//! The transition contract of a state machine driven by the event loop.
use vstd::prelude::*;

use crate::time::Time;

verus! {

#[verifier::external_type_specification]
#[verifier::external_body]
pub struct ExEventSet(rotor::EventSet);

#[verifier::external_type_specification]
#[verifier::external_body]
pub struct ExVoid(rotor::Void);

/// What a machine answers to a transition.
pub enum Response<M, N> {
    /// Keep running as `M`.
    Normal(M),
    /// Keep running as `M` and deliver a timeout at the given time.
    Deadline(M, Time),
    /// Keep running as `M` and create a new machine from the seed `N`.
    Spawn(M, N),
    /// Stop the machine.
    Done,
    /// Stop the machine because of the described error.
    Error(String),
}

impl<M, N> Response<M, N> {
    /// The machine that keeps running, if any.
    pub open spec fn successor(self) -> Option<M> {
        match self {
            Response::Normal(m) => Some(m),
            Response::Deadline(m, _) => Some(m),
            Response::Spawn(m, _) => Some(m),
            _ => None,
        }
    }

    /// The same response with `t` in place of the machine.
    pub open spec fn with_machine<T>(self, t: T) -> Response<T, N> {
        match self {
            Response::Normal(_) => Response::Normal(t),
            Response::Deadline(_, d) => Response::Deadline(t, d),
            Response::Spawn(_, n) => Response::Spawn(t, n),
            Response::Done => Response::Done,
            Response::Error(e) => Response::Error(e),
        }
    }

    /// Splits off the machine that keeps running, putting `t` in its place.
    pub fn swap_machine<T>(self, t: T) -> (r: (Option<M>, Response<T, N>))
        ensures
            r.0 == self.successor(),
            r.1 == self.with_machine(t),
    {
        match self {
            Response::Normal(m) => (Some(m), Response::Normal(t)),
            Response::Deadline(m, d) => (Some(m), Response::Deadline(t, d)),
            Response::Spawn(m, n) => (Some(m), Response::Spawn(t, n)),
            Response::Done => (None, Response::Done),
            Response::Error(e) => (None, Response::Error(e)),
        }
    }
}

/// The transitions the loop delivers to a running machine.
pub enum Transition {
    Ready(rotor::EventSet),
    Spawned,
    Timeout,
    Wakeup,
}

/// A state machine driven by the event loop. Each transition consumes the
/// current state and answers with its successor or the end of the machine.
///
/// Each transition has a spec function saying what it promises of the
/// context (`before` and `after` the call) and of its response; a machine
/// that promises nothing keeps the defaults.
pub trait Machine: Sized {
    type Context;
    type Seed;

    open spec fn create_post(
        seed: Self::Seed,
        before: Self::Context,
        after: Self::Context,
        r: Response<Self, rotor::Void>,
    ) -> bool {
        true
    }

    open spec fn ready_post(
        &self,
        events: rotor::EventSet,
        before: Self::Context,
        after: Self::Context,
        r: Response<Self, Self::Seed>,
    ) -> bool {
        true
    }

    open spec fn spawned_post(
        &self,
        before: Self::Context,
        after: Self::Context,
        r: Response<Self, Self::Seed>,
    ) -> bool {
        true
    }

    open spec fn timeout_post(
        &self,
        before: Self::Context,
        after: Self::Context,
        r: Response<Self, Self::Seed>,
    ) -> bool {
        true
    }

    open spec fn wakeup_post(
        &self,
        before: Self::Context,
        after: Self::Context,
        r: Response<Self, Self::Seed>,
    ) -> bool {
        true
    }

    /// Builds the machine from a seed handed out by a `Spawn` response.
    fn create(seed: Self::Seed, ctx: &mut Self::Context) -> (r: Response<Self, rotor::Void>)
        ensures
            Self::create_post(seed, *old(ctx), *final(ctx), r),
    ;

    fn ready(self, events: rotor::EventSet, ctx: &mut Self::Context) -> (r: Response<Self, Self::Seed>)
        ensures
            self.ready_post(events, *old(ctx), *final(ctx), r),
    ;

    fn spawned(self, ctx: &mut Self::Context) -> (r: Response<Self, Self::Seed>)
        ensures
            self.spawned_post(*old(ctx), *final(ctx), r),
    ;

    fn timeout(self, ctx: &mut Self::Context) -> (r: Response<Self, Self::Seed>)
        ensures
            self.timeout_post(*old(ctx), *final(ctx), r),
    ;

    fn wakeup(self, ctx: &mut Self::Context) -> (r: Response<Self, Self::Seed>)
        ensures
            self.wakeup_post(*old(ctx), *final(ctx), r),
    ;
}

} // verus!
