//! A one-shot cooldown: time runs up to a set duration and then stays there
//! until the cooldown is reset.
//!
//! The state is held as plain nanosecond counts; bevy's `Timer` does the
//! ticking and the resetting.

use bevy::time::{Timer, TimerMode};
use std::time::Duration;
use vstd::prelude::*;

verus! {

/// The state of a cooldown, in nanoseconds.
pub struct CooldownView {
    /// How long the cooldown lasts.
    pub duration: nat,
    /// How much of it has run.
    pub elapsed: nat,
    /// Whether it has run out since it was last reset.
    pub finished: bool,
}

impl CooldownView {
    /// A cooldown of `duration` that has not started to run.
    pub open spec fn start(duration: nat) -> CooldownView {
        CooldownView { duration, elapsed: 0, finished: false }
    }

    /// Elapsed time never passes the duration, and a finished cooldown rests
    /// exactly on it.
    pub open spec fn wf(self) -> bool {
        &&& self.elapsed <= self.duration
        &&& self.finished ==> self.elapsed == self.duration
    }

    /// The time still to run.
    pub open spec fn remaining(self) -> int {
        self.duration - self.elapsed
    }

    /// The state after `delta` more nanoseconds. A finished cooldown stays as
    /// it is; a running one finishes as soon as its duration is reached.
    pub open spec fn tick(self, delta: nat) -> CooldownView {
        if self.finished {
            self
        } else if self.elapsed + delta >= self.duration {
            CooldownView { duration: self.duration, elapsed: self.duration, finished: true }
        } else {
            CooldownView { duration: self.duration, elapsed: self.elapsed + delta, finished: false }
        }
    }

    /// The state after a reset: nothing has run, and the cooldown is not
    /// finished.
    pub open spec fn reset(self) -> CooldownView {
        CooldownView { duration: self.duration, elapsed: 0, finished: false }
    }

    /// Whether a weapon on this cooldown fires when its trigger is tried with
    /// `held` saying whether its key is down.
    pub open spec fn fires(self, held: bool) -> bool {
        held && self.finished
    }

    /// The state after the trigger was tried: a shot starts the cooldown over,
    /// and anything else leaves it alone.
    pub open spec fn pull(self, held: bool) -> CooldownView {
        if self.fires(held) {
            self.reset()
        } else {
            self
        }
    }
}

/// What can happen to a weapon's cooldown between frames and within one.
pub enum Event {
    /// Time passes, in nanoseconds.
    Tick(nat),
    /// The trigger is tried, with the weapon's key held or not.
    Trigger(bool),
}

impl CooldownView {
    /// The state after one event.
    pub open spec fn step(self, event: Event) -> CooldownView {
        match event {
            Event::Tick(delta) => self.tick(delta),
            Event::Trigger(held) => self.pull(held),
        }
    }

    /// The state after a run of events, first to last.
    pub open spec fn run(self, events: Seq<Event>) -> CooldownView
        decreases events.len(),
    {
        if events.len() == 0 {
            self
        } else {
            self.run(events.drop_last()).step(events.last())
        }
    }

    /// Whether event `i` of the run is a shot: a try of the trigger that
    /// fires.
    pub open spec fn fires_at(self, events: Seq<Event>, i: int) -> bool {
        match events[i] {
            Event::Tick(_) => false,
            Event::Trigger(held) => self.run(events.take(i)).fires(held),
        }
    }
}

/// The time that passes in a run of events: the sum of its ticks.
pub open spec fn time_passed(events: Seq<Event>) -> nat
    decreases events.len(),
{
    if events.len() == 0 {
        0
    } else {
        let rest = time_passed(events.drop_last());
        match events.last() {
            Event::Tick(delta) => rest + delta,
            Event::Trigger(_) => rest,
        }
    }
}

/// A run of events keeps a cooldown well formed and its duration fixed, and
/// never lets more time elapse on it than has passed.
pub proof fn lemma_run_bounds(c: CooldownView, events: Seq<Event>)
    requires
        c.wf(),
    ensures
        c.run(events).wf(),
        c.run(events).duration == c.duration,
        c.run(events).elapsed <= c.elapsed + time_passed(events),
    decreases events.len(),
{
    if events.len() > 0 {
        lemma_run_bounds(c, events.drop_last());
    }
}

/// Running a sequence of events is running its first `i` and then the rest.
pub proof fn lemma_run_split(c: CooldownView, events: Seq<Event>, i: int)
    requires
        0 <= i <= events.len(),
    ensures
        c.run(events) == c.run(events.take(i)).run(events.skip(i)),
    decreases events.len(),
{
    if i == events.len() {
        assert(events.take(i) =~= events);
        assert(events.skip(i).len() == 0);
    } else {
        let front = events.drop_last();
        lemma_run_split(c, front, i);
        assert(front.take(i) =~= events.take(i));
        assert(front.skip(i) =~= events.skip(i).drop_last());
        assert(events.skip(i).last() == events.last());
    }
}

/// Two shots of one weapon are at least its cooldown apart: between any two
/// events of a run at which the weapon fires, the ticks add up to no less
/// than the cooldown's duration. This holds however the key is held, and so
/// when it is held without a break.
pub proof fn lemma_shots_are_a_cooldown_apart(c: CooldownView, events: Seq<Event>, i: int, j: int)
    requires
        c.wf(),
        0 <= i < j < events.len(),
        c.fires_at(events, i),
        c.fires_at(events, j),
    ensures
        time_passed(events.subrange(i + 1, j)) >= c.duration,
{
    let upto = events.take(j);
    let between = events.subrange(i + 1, j);
    let shot = events.take(i + 1);
    lemma_run_split(c, upto, i + 1);
    assert(upto.take(i + 1) =~= shot);
    assert(upto.skip(i + 1) =~= between);
    assert(shot.drop_last() =~= events.take(i));
    assert(shot.last() == events[i]);
    lemma_run_bounds(c, events.take(i));
    let reloaded = c.run(shot);
    assert(reloaded == c.run(events.take(i)).reset());
    lemma_run_bounds(reloaded, between);
}

/// A running cooldown on which only time passes finishes exactly when that
/// time, added to what had elapsed, reaches its duration; until then it has
/// counted all of it.
pub proof fn lemma_ticks_add_up(c: CooldownView, events: Seq<Event>)
    requires
        c.wf(),
        !c.finished,
        forall|i: int| 0 <= i < events.len() ==> (#[trigger] events[i]) is Tick,
    ensures
        c.run(events).finished <==> events.len() > 0 && c.elapsed + time_passed(events)
            >= c.duration,
        !c.run(events).finished ==> c.run(events).elapsed == c.elapsed + time_passed(events),
    decreases events.len(),
{
    if events.len() > 0 {
        let front = events.drop_last();
        assert(events.last() is Tick);
        assert forall|i: int| 0 <= i < front.len() implies (#[trigger] front[i]) is Tick by {
            assert(front[i] == events[i]);
        }
        lemma_ticks_add_up(c, front);
        lemma_run_bounds(c, front);
    }
}

/// A weapon that has fired is ready again exactly when the ticks since its
/// shot have reached its cooldown: with its key held it fires at the rate of
/// the cooldown, no sooner and no later.
pub proof fn lemma_ready_when_cooldown_has_passed(c: CooldownView, events: Seq<Event>)
    requires
        c.wf(),
        forall|i: int| 0 <= i < events.len() ==> (#[trigger] events[i]) is Tick,
    ensures
        c.reset().run(events).fires(true) <==> events.len() > 0 && time_passed(events)
            >= c.duration,
{
    lemma_ticks_add_up(c.reset(), events);
}

/// A one-shot cooldown timer.
#[derive(Clone, Copy, Debug)]
pub struct Cooldown {
    duration: u64,
    elapsed: u64,
    finished: bool,
}

/// One tick of a running one-shot timer. Builds a bevy `Timer` of `duration`
/// nanoseconds with `elapsed` already run and calls `Timer::tick` with `delta`:
/// the timer adds `delta`, and once the sum reaches the duration it reports
/// itself finished and clamps the elapsed time to the duration.
#[verifier::external_body]
fn timer_tick(duration: u64, elapsed: u64, delta: u64) -> (after: (u64, bool))
    ensures
        after.1 == (elapsed + delta >= duration),
        after.0 == (if elapsed + delta >= duration { duration as int } else { elapsed + delta }),
{
    let mut timer = Timer::new(Duration::from_nanos(duration), TimerMode::Once);
    timer.set_elapsed(Duration::from_nanos(elapsed));
    timer.tick(Duration::from_nanos(delta));
    (timer.elapsed().as_nanos() as u64, timer.finished())
}

/// A reset of a one-shot timer. Builds a bevy `Timer` of `duration` nanoseconds
/// with `elapsed` already run and calls `Timer::reset`, which puts the elapsed
/// time back to zero and clears the finished flag.
#[verifier::external_body]
fn timer_reset(duration: u64, elapsed: u64) -> (after: (u64, bool))
    ensures
        after.0 == 0,
        !after.1,
{
    let mut timer = Timer::new(Duration::from_nanos(duration), TimerMode::Once);
    timer.set_elapsed(Duration::from_nanos(elapsed));
    timer.reset();
    (timer.elapsed().as_nanos() as u64, timer.finished())
}

impl View for Cooldown {
    type V = CooldownView;

    closed spec fn view(&self) -> CooldownView {
        CooldownView {
            duration: self.duration as nat,
            elapsed: self.elapsed as nat,
            finished: self.finished,
        }
    }
}

impl Cooldown {
    #[verifier::type_invariant]
    spec fn inv(self) -> bool {
        self@.wf()
    }

    /// A cooldown of `duration` nanoseconds that has not started to run.
    pub fn new(duration: u64) -> (c: Cooldown)
        ensures
            c@ == CooldownView::start(duration as nat),
            c@.wf(),
    {
        Cooldown { duration, elapsed: 0, finished: false }
    }

    /// Whether the cooldown has run out since it was last reset.
    pub fn finished(&self) -> (f: bool)
        ensures
            f == self@.finished,
    {
        self.finished
    }

    /// How long the cooldown lasts, in nanoseconds.
    pub fn duration(&self) -> (d: u64)
        ensures
            d == self@.duration,
    {
        self.duration
    }

    /// How much of the cooldown has run, in nanoseconds: never more than its
    /// duration.
    pub fn elapsed(&self) -> (e: u64)
        ensures
            e == self@.elapsed,
            self@.wf(),
    {
        proof {
            use_type_invariant(self);
        }
        self.elapsed
    }

    /// How much of the cooldown is still to run, in nanoseconds.
    pub fn remaining(&self) -> (r: u64)
        ensures
            r == self@.remaining(),
    {
        proof {
            use_type_invariant(self);
        }
        self.duration - self.elapsed
    }

    /// Advances the cooldown by `delta` nanoseconds.
    pub fn tick(&mut self, delta: u64)
        ensures
            final(self)@ == old(self)@.tick(delta as nat),
            final(self)@.wf(),
    {
        proof {
            use_type_invariant(&*self);
        }
        if !self.finished {
            let (elapsed, finished) = timer_tick(self.duration, self.elapsed, delta);
            *self = Cooldown { duration: self.duration, elapsed, finished };
        }
    }

    /// Starts the cooldown over.
    pub fn reset(&mut self)
        ensures
            final(self)@ == old(self)@.reset(),
            final(self)@.wf(),
    {
        let (elapsed, finished) = timer_reset(self.duration, self.elapsed);
        *self = Cooldown { duration: self.duration, elapsed, finished };
    }
}

} // verus!
