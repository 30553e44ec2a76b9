//! Periodic timers: a ticker that filters spurious events and re-arms
//! itself with a drift-minimizing schedule.
use vstd::prelude::*;

use crate::time::{sat_add, Time, MAX_MILLIS};

verus! {

/// The deadline that follows a tick scheduled at `scheduled` and observed at
/// `now`, for a period of `interval` milliseconds.
///
/// The next deadline is anchored to when the tick should have fired. When
/// even that anchored deadline has already passed, the missed ticks are
/// skipped and the next deadline is one period after `now`.
pub open spec fn anchored_next(interval: nat, scheduled: nat, now: nat) -> nat {
    let goal = sat_add(scheduled, interval);
    if now > goal {
        sat_add(now, interval)
    } else {
        goal
    }
}

/// The deadline a ticker of period `interval` armed at `start` holds after
/// ticks that each fire `late[k]` milliseconds after their deadline.
pub open spec fn deadline_after(interval: nat, start: nat, late: Seq<nat>) -> nat
    decreases late.len(),
{
    if late.len() == 0 {
        start
    } else {
        let prev = deadline_after(interval, start, late.drop_last());
        anchored_next(interval, prev, prev + late.last())
    }
}

/// Ticks that each fire late by at most one period do not drift: after `n`
/// of them the deadline is exactly `n` periods past the first one.
pub proof fn lemma_no_drift(interval: nat, start: nat, late: Seq<nat>)
    requires
        forall|k: int| 0 <= k < late.len() ==> late[k] <= interval,
        start + late.len() * interval <= MAX_MILLIS,
    ensures
        deadline_after(interval, start, late) == start + late.len() * interval,
    decreases late.len(),
{
    if late.len() > 0 {
        let n = late.len();
        let rest = late.drop_last();
        assert(n * interval == (n - 1) * interval + interval) by (nonlinear_arith)
            requires n > 0;
        assert((n - 1) * interval <= n * interval) by (nonlinear_arith)
            requires n > 0;
        assert forall|k: int| 0 <= k < rest.len() implies rest[k] <= interval by {
            assert(rest[k] == late[k]);
        }
        lemma_no_drift(interval, start, rest);
        assert(late.last() == late[n - 1]);
    }
}

/// A tick observed more than one period after its deadline skips the missed
/// ticks: the next deadline is one period after `now`, so a second timeout
/// at `now` is spurious and the stall yields exactly one tick.
pub proof fn lemma_catch_up(interval: nat, scheduled: nat, now: nat)
    requires
        interval > 0,
        now > scheduled + interval,
        now + interval <= MAX_MILLIS,
    ensures
        anchored_next(interval, scheduled, now) == now + interval,
        anchored_next(interval, scheduled, now) > now,
{
}

/// The timer protocol of a machine held by a `Ticker`.
pub trait Timer: Sized {
    /// What the user action receives from the loop.
    type Context;

    /// The next deadline, given the time the previous tick was scheduled at
    /// and the current time.
    spec fn next_spec(&self, scheduled: Time, now: Time) -> Time;

    /// What a tick promises of the context it ran with (`before` and
    /// `after` the tick) and of the timer it leaves behind.
    spec fn tick_spec(&self, before: Self::Context, after: Self::Context, next: &Self) -> bool;

    /// Called when the deadline has elapsed.
    fn timeout(self, ctx: &mut Self::Context) -> (r: Self)
        ensures
            self.tick_spec(*old(ctx), *final(ctx), &r),
    ;

    /// Calculates the next wakeup time.
    ///
    /// `scheduled` is the time the event had to occur at.
    fn next_wakeup_time(&self, scheduled: Time, now: Time) -> (r: Time)
        ensures
            r == self.next_spec(scheduled, now),
    ;
}

/// The action run by an `Interval` on every tick.
pub trait SimpleTimer: Sized {
    type Context;

    /// What running the action promises of the context (`before` and
    /// `after` it ran) and of the action it leaves behind; an action that
    /// promises nothing keeps the default.
    open spec fn tick_post(&self, before: Self::Context, after: Self::Context, next: Self) -> bool {
        true
    }

    /// Called when time elapsed.
    fn timeout(self, ctx: &mut Self::Context) -> (r: Self)
        ensures
            self.tick_post(*old(ctx), *final(ctx), r),
    ;
}

/// A timer that fires at a fixed period: the first field is the period in
/// milliseconds, the second the action run on every tick.
pub struct Interval<M: SimpleTimer>(pub u64, pub M);

impl<M: SimpleTimer> Timer for Interval<M> {
    type Context = M::Context;

    open spec fn next_spec(&self, scheduled: Time, now: Time) -> Time {
        Time { ms: anchored_next(self.0 as nat, scheduled.ms as nat, now.ms as nat) as u64 }
    }

    open spec fn tick_spec(&self, before: M::Context, after: M::Context, next: &Self) -> bool {
        &&& next.0 == self.0
        &&& self.1.tick_post(before, after, next.1)
    }

    fn timeout(self, ctx: &mut Self::Context) -> (r: Self) {
        let Interval(period, action) = self;
        Interval(period, action.timeout(ctx))
    }

    fn next_wakeup_time(&self, scheduled: Time, now: Time) -> (r: Time) {
        // anchor the next tick to when this one should have happened
        let goal = scheduled.add_millis(self.0);
        if now.ms > goal.ms {
            // far too late: skip the missed ticks
            now.add_millis(self.0)
        } else {
            goal
        }
    }
}

/// A machine that runs the timer `machine` each time `deadline` elapses.
///
/// Every transition answers with the deadline the loop must arm next,
/// which is `deadline` of the returned ticker.
pub struct Ticker<M: Timer> {
    pub deadline: Time,
    pub machine: M,
}

impl<M: Timer> Ticker<M> {
    /// Arms a ticker whose first deadline is computed from `now`.
    pub fn new(machine: M, now: Time) -> (r: Ticker<M>)
        ensures
            r.machine == machine,
            r.deadline == machine.next_spec(now, now),
    {
        let next = machine.next_wakeup_time(now, now);
        Ticker { deadline: next, machine }
    }

    /// A readiness event is spurious: the state and its deadline are kept.
    pub fn ready(self) -> (r: Ticker<M>)
        ensures
            r == self,
    {
        self
    }

    /// A wakeup is spurious: the state and its deadline are kept.
    pub fn wakeup(self) -> (r: Ticker<M>)
        ensures
            r == self,
    {
        self
    }

    /// The timer fired at `now`. A genuine tick (`now` at or past the
    /// deadline) runs the timer and schedules the next deadline from the
    /// one that just elapsed; an early one changes nothing.
    pub fn timeout(self, ctx: &mut M::Context, now: Time) -> (r: Ticker<M>)
        ensures
            now.ms >= self.deadline.ms ==> {
                &&& self.machine.tick_spec(*old(ctx), *final(ctx), &r.machine)
                &&& r.deadline == r.machine.next_spec(self.deadline, now)
            },
            now.ms < self.deadline.ms ==> r == self && *final(ctx) == *old(ctx),
    {
        if now.reached(&self.deadline) {
            let Ticker { deadline, machine } = self;
            let next_machine = machine.timeout(ctx);
            let next = next_machine.next_wakeup_time(deadline, now);
            Ticker { deadline: next, machine: next_machine }
        } else {
            // spurious timeout: re-arm the same deadline
            self
        }
    }
}

/// A genuine tick of an interval ticker runs its action once, keeps its
/// period and moves the deadline along the anchored schedule: one period
/// past the deadline that elapsed (not past the late firing time), or one
/// period past `now` when that is already behind, so a stall yields a
/// single tick.
pub proof fn lemma_interval_tick<M: SimpleTimer>(
    before: Ticker<Interval<M>>,
    after: Ticker<Interval<M>>,
    ctx_before: M::Context,
    ctx_after: M::Context,
    now: Time,
)
    requires
        now.ms >= before.deadline.ms,
        before.machine.tick_spec(ctx_before, ctx_after, &after.machine),
        after.deadline == after.machine.next_spec(before.deadline, now),
    ensures
        after.machine.0 == before.machine.0,
        before.machine.1.tick_post(ctx_before, ctx_after, after.machine.1),
        after.deadline.ms == anchored_next(
            before.machine.0 as nat,
            before.deadline.ms as nat,
            now.ms as nat,
        ),
        now.ms <= before.deadline.ms + before.machine.0 && before.deadline.ms + before.machine.0
            <= MAX_MILLIS ==> after.deadline.ms == before.deadline.ms + before.machine.0,
        now.ms > before.deadline.ms + before.machine.0 && now.ms + before.machine.0 <= MAX_MILLIS
            ==> after.deadline.ms == now.ms + before.machine.0 && after.deadline.ms > now.ms
            || before.machine.0 == 0,
{
    let n = anchored_next(before.machine.0 as nat, before.deadline.ms as nat, now.ms as nat);
    assert(n <= MAX_MILLIS);
}

/// The ticker of an `Interval` whose action is `action`.
pub fn interval_func<M: SimpleTimer>(interval_ms: u64, action: M, now: Time) -> (r: Ticker<Interval<M>>)
    ensures
        r.machine.0 == interval_ms,
        r.machine.1 == action,
        r.deadline.ms == sat_add(now.ms as nat, interval_ms as nat),
{
    Ticker::new(Interval(interval_ms, action), now)
}

} // verus!
