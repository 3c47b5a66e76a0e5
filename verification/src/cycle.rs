//! One parking cycle under every interleaving.
//!
//! The model puts a parker between the thread that parks on it (the
//! waiter), the thread that unparks it (the waker), the native facility and
//! a clock. A cycle has one waker: the lock of the wait queue lets one
//! unparker at most take a waiter off the queue. Each step is one atomic
//! action; an execution is any sequence of steps, each enabled where it
//! is taken. The waiter and the waker move by the transitions of
//! [`ParkerState`] and [`UnparkHandle`]; the facility moves as follows.
//!
//! * A wait on an address puts the thread to sleep only while the word
//!   behind the key says `Parked`; the comparison and the falling asleep
//!   are one action. A wake on the address ends the sleep of a thread
//!   that is asleep on it, and is lost otherwise. A sleep may also end
//!   for no reason.
//! * On keyed events a release blocks until a waiter sleeps on the same
//!   key, and ends the sleep when one does.
//! * A sleep with a timeout may end once the clock has reached the time
//!   at which the wait was entered plus the timeout.

use vstd::prelude::*;
use crate::backend::Backend;
use crate::parker::{KeyState, ParkStep, ParkerState, UnparkHandle, WaitOutcome};

verus! {

/// Where the parking thread is in its cycle.
pub enum Waiter {
    /// It has not prepared the parker yet.
    Unarmed,
    /// It runs, and will ask for its next step with this outcome of its
    /// last wait. `Ready(None)` is the prepared waiter that has not waited
    /// yet.
    Ready(Option<WaitOutcome>),
    /// It was told to wait with this timeout and has not entered the wait.
    Entering(Option<u64>),
    /// It sleeps in the facility, until the given time at most.
    Asleep(Option<int>),
    /// Its park has ended with this result.
    Returned(bool),
}

/// Where the unparking thread is.
pub enum Waker {
    /// It has not marked the waiter.
    Idle,
    /// It has marked the waiter under the queue lock and holds the handle.
    Marked(UnparkHandle),
    /// It is blocked in a keyed-event release on this key.
    Releasing(usize),
    /// It has used up its handle.
    Finished,
}

/// The state of one parking cycle.
pub struct Cycle {
    /// The parker that the two threads share.
    pub parker: ParkerState,
    /// The deadline of the park, or `None` for a park without one.
    pub deadline: Option<u64>,
    /// The current time.
    pub clock: u64,
    /// The parking thread.
    pub waiter: Waiter,
    /// The unparking thread.
    pub waker: Waker,
}

/// The phase of a parking cycle, as the thread that parks goes through it.
#[derive(Clone, Copy, PartialEq, Eq, Structural, Debug)]
pub enum Phase {
    /// Before the parker is prepared.
    Unarmed,
    /// Prepared and visible to unparkers, not parked yet.
    Prepared,
    /// In the park: waiting, or between two waits.
    Parked,
    /// The park has ended with "woken".
    Woken,
    /// The park has ended at its deadline.
    TimedOut,
}

impl Phase {
    /// How far the phase is into the cycle. The two ends of a park are
    /// equally far.
    pub open spec fn depth(self) -> nat {
        match self {
            Phase::Unarmed => 0,
            Phase::Prepared => 1,
            Phase::Parked => 2,
            Phase::Woken => 3,
            Phase::TimedOut => 3,
        }
    }
}

/// One atomic action.
pub enum Step {
    /// The waiter prepares the parker and makes itself visible.
    Prepare,
    /// The waiter asks what to do next.
    Check,
    /// The waiter enters the native wait.
    Enter,
    /// The timeout of the waiter's sleep runs out.
    Timeout,
    /// A sleep on an address ends for no reason.
    Spurious,
    /// Time passes, up to the given clock value.
    Tick(u64),
    /// The waker marks the waiter and takes the handle.
    Mark,
    /// The waker uses the handle.
    Wake,
    /// A keyed-event release meets the sleeping waiter.
    Meet,
}

impl Cycle {
    /// The cycle with the waiter somewhere else.
    pub open spec fn with_waiter(self, waiter: Waiter) -> Cycle {
        Cycle { waiter, ..self }
    }

    /// The phase that the cycle is in.
    pub open spec fn phase(self) -> Phase {
        match self.waiter {
            Waiter::Unarmed => Phase::Unarmed,
            Waiter::Ready(None) => Phase::Prepared,
            Waiter::Ready(Some(_)) => Phase::Parked,
            Waiter::Entering(_) => Phase::Parked,
            Waiter::Asleep(_) => Phase::Parked,
            Waiter::Returned(true) => Phase::Woken,
            Waiter::Returned(false) => Phase::TimedOut,
        }
    }

    /// Whether `step` can be taken in this state.
    pub open spec fn enabled(self, step: Step) -> bool {
        match step {
            Step::Prepare => self.waiter is Unarmed,
            Step::Check => self.waiter is Ready,
            Step::Enter => self.waiter is Entering,
            Step::Timeout => match self.waiter {
                Waiter::Asleep(Some(until)) => self.clock >= until,
                _ => false,
            },
            Step::Spurious => self.parker.backend == Backend::WaitAddress && self.waiter is Asleep,
            Step::Tick(clock) => clock >= self.clock,
            Step::Mark => self.waker is Idle && !(self.waiter is Unarmed),
            Step::Wake => self.waker is Marked,
            Step::Meet => self.waiter is Asleep && self.waker == Waker::Releasing(self.parker.key),
        }
    }

    /// The state after the waiter has asked for its next step.
    pub open spec fn check(self) -> Cycle {
        let outcome = match self.waiter {
            Waiter::Ready(outcome) => outcome,
            _ => None,
        };
        let (parker, step) = match self.deadline {
            None => (self.parker, self.parker.park(outcome)),
            Some(deadline) => self.parker.park_until(outcome, self.clock, deadline),
        };
        let waiter = match step {
            ParkStep::Done(woken) => Waiter::Returned(woken),
            ParkStep::Wait(timeout) => Waiter::Entering(timeout),
        };
        Cycle { parker, waiter, ..self }
    }

    /// The state after the waiter has entered the native wait.
    pub open spec fn enter(self) -> Cycle {
        if self.parker.backend == Backend::WaitAddress && self.parker.state != KeyState::Parked {
            self.with_waiter(Waiter::Ready(Some(WaitOutcome::Woken)))
        } else {
            match self.waiter {
                Waiter::Entering(Some(timeout)) => self.with_waiter(
                    Waiter::Asleep(Some(self.clock + timeout)),
                ),
                _ => self.with_waiter(Waiter::Asleep(None)),
            }
        }
    }

    /// The state after the waker has used its handle. A wake goes to the
    /// key that the handle names: it reaches this waiter only through this
    /// parker's key.
    pub open spec fn wake(self) -> Cycle {
        let handle = match self.waker {
            Waker::Marked(handle) => handle,
            _ => UnparkHandle::KeyedEvent(None),
        };
        match handle.wake() {
            None => Cycle { waker: Waker::Finished, ..self },
            Some(wake) => match wake.backend {
                Backend::KeyedEvent => Cycle { waker: Waker::Releasing(wake.key), ..self },
                Backend::WaitAddress => Cycle {
                    waker: Waker::Finished,
                    waiter: if self.waiter is Asleep && wake.key == self.parker.key {
                        Waiter::Ready(Some(WaitOutcome::Woken))
                    } else {
                        self.waiter
                    },
                    ..self
                },
            },
        }
    }

    /// The state after `step`.
    pub open spec fn next(self, step: Step) -> Cycle {
        match step {
            Step::Prepare => Cycle {
                parker: self.parker.prepare(),
                waiter: Waiter::Ready(None),
                ..self
            },
            Step::Check => self.check(),
            Step::Enter => self.enter(),
            Step::Timeout => self.with_waiter(Waiter::Ready(Some(WaitOutcome::TimedOut))),
            Step::Spurious => self.with_waiter(Waiter::Ready(Some(WaitOutcome::Woken))),
            Step::Tick(clock) => Cycle { clock, ..self },
            Step::Mark => {
                let (parker, handle) = self.parker.unpark_lock();
                Cycle { parker, waker: Waker::Marked(handle), ..self }
            },
            Step::Wake => self.wake(),
            Step::Meet => Cycle {
                waiter: Waiter::Ready(Some(WaitOutcome::Woken)),
                waker: Waker::Finished,
                ..self
            },
        }
    }

    /// The start of a cycle: a parker in whatever state the last cycle
    /// left it, and two threads that have done nothing yet.
    pub open spec fn start(parker: ParkerState, deadline: Option<u64>, clock: u64) -> Cycle {
        Cycle { parker, deadline, clock, waiter: Waiter::Unarmed, waker: Waker::Idle }
    }

    /// The state after `steps`, taken in order.
    pub open spec fn run(self, steps: Seq<Step>) -> Cycle
        decreases steps.len(),
    {
        if steps.len() == 0 {
            self
        } else {
            self.run(steps.drop_last()).next(steps.last())
        }
    }

    /// Whether `steps` is an execution from this state: each step is
    /// enabled in the state that the steps before it lead to.
    pub open spec fn possible(self, steps: Seq<Step>) -> bool
        decreases steps.len(),
    {
        steps.len() > 0 ==> self.possible(steps.drop_last()) && self.run(
            steps.drop_last(),
        ).enabled(steps.last())
    }

    /// Whether one of the two threads, or the meeting of the two, can move.
    /// Timeouts, spurious ends of a sleep and the clock are left out: no
    /// thread can count on them.
    pub open spec fn can_progress(self) -> bool {
        exists|step: Step| step.is_progress() && #[trigger] self.enabled(step)
    }

    /// An upper bound on the moves that the threads of a cycle without a
    /// deadline still have to make.
    pub open spec fn distance(self) -> nat {
        match self.parker.backend {
            Backend::WaitAddress => {
                let marked = !(self.waker is Idle);
                let waiter: nat = match self.waiter {
                    Waiter::Unarmed => 3,
                    Waiter::Ready(_) => if marked { 1 } else { 2 },
                    Waiter::Entering(_) => if marked { 2 } else { 1 },
                    Waiter::Asleep(_) => if marked { 2 } else { 0 },
                    Waiter::Returned(_) => 0,
                };
                let waker: nat = match self.waker {
                    Waker::Idle => 4,
                    Waker::Marked(_) => 1,
                    Waker::Releasing(_) => 1,
                    Waker::Finished => 0,
                };
                waiter + waker
            },
            Backend::KeyedEvent => {
                let waiter: nat = match self.waiter {
                    Waiter::Unarmed => 5,
                    Waiter::Ready(Some(WaitOutcome::Woken)) => 1,
                    Waiter::Ready(_) => 4,
                    Waiter::Entering(_) => 3,
                    Waiter::Asleep(_) => 2,
                    Waiter::Returned(_) => 0,
                };
                let waker: nat = match self.waker {
                    Waker::Idle => 3,
                    Waker::Marked(_) => 2,
                    Waker::Releasing(_) => 1,
                    Waker::Finished => 0,
                };
                waiter + waker
            },
        }
    }

    /// What holds in every state of every execution.
    closed spec fn inv(self) -> bool {
        let key = self.parker.key;
        let state = self.parker.state;
        &&& self.waiter is Unarmed ==> self.waker is Idle
        &&& self.waiter == Waiter::Ready(Some(WaitOutcome::TimedOut)) ==> self.past_deadline()
        &&& self.waiter == Waiter::Returned(false) ==> self.past_deadline()
        &&& match self.waiter {
            Waiter::Entering(Some(timeout)) => self.deadline matches Some(deadline)
                && self.clock + timeout >= deadline,
            Waiter::Asleep(Some(until)) => self.deadline matches Some(deadline) && until
                >= deadline,
            _ => true,
        }
        &&& !(self.waiter is Unarmed) ==> match self.parker.backend {
            Backend::WaitAddress => {
                &&& self.waker is Idle ==> state == KeyState::Parked
                &&& !(self.waker is Idle) ==> state == KeyState::Unparked
                &&& self.waker is Marked ==> self.waker == Waker::Marked(
                    UnparkHandle::WaitAddress(key),
                )
                &&& !(self.waker is Releasing)
                &&& self.waker is Finished ==> !(self.waiter is Asleep)
                &&& self.waiter == Waiter::Returned(true) ==> !(self.waker is Idle)
                &&& self.deadline is Some ==> self.waiter != Waiter::Entering(None) && self.waiter
                    != Waiter::Asleep(None)
            },
            Backend::KeyedEvent => {
                let owed = self.waker == Waker::Marked(UnparkHandle::KeyedEvent(Some(key)))
                    || self.waker is Releasing;
                &&& self.waker is Idle ==> (state == KeyState::Parked || state
                    == KeyState::TimedOut)
                &&& self.waker is Idle ==> (state == KeyState::TimedOut <==> self.waiter
                    == Waiter::Returned(false))
                &&& self.waker is Marked ==> owed || self.waker == Waker::Marked(
                    UnparkHandle::KeyedEvent(None),
                )
                &&& self.waker is Releasing ==> self.waker == Waker::Releasing(key)
                &&& owed ==> {
                    &&& self.waiter is Ready || self.waiter is Entering || self.waiter is Asleep
                    &&& self.waiter != Waiter::Ready(Some(WaitOutcome::Woken))
                    &&& state == KeyState::Unparked || (state == KeyState::TimedOut && (self.waiter
                        == Waiter::Entering(None) || self.waiter == Waiter::Asleep(None)))
                }
                &&& self.waker == Waker::Marked(UnparkHandle::KeyedEvent(None)) ==> state
                    == KeyState::Unparked && self.waiter == Waiter::Returned(false)
                &&& self.waker is Finished ==> self.waiter == Waiter::Ready(
                    Some(WaitOutcome::Woken),
                ) || self.waiter is Returned
                &&& self.waker is Finished && self.waiter == Waiter::Returned(false) ==> state
                    == KeyState::Unparked
                &&& self.waiter == Waiter::Ready(Some(WaitOutcome::Woken)) ==> self.waker is Finished
                &&& self.waiter == Waiter::Returned(true) ==> self.waker is Finished && state
                    == KeyState::Unparked
                &&& self.waker is Idle ==> self.waiter != Waiter::Entering(None) && self.waiter
                    != Waiter::Asleep(None) || self.deadline is None
                &&& !(self.waker is Idle) ==> state != KeyState::Parked
                &&& self.deadline is None ==> state != KeyState::TimedOut
            },
        }
    }

    /// Whether the cycle has a deadline and the clock has reached it.
    pub open spec fn past_deadline(self) -> bool {
        self.deadline matches Some(deadline) && self.clock >= deadline
    }
}

impl Step {
    /// Whether the step is a move of one of the two threads, or their
    /// meeting.
    pub open spec fn is_progress(self) -> bool {
        self is Prepare || self is Check || self is Enter || self is Mark || self is Wake
            || self is Meet
    }
}

proof fn lemma_inv_start(parker: ParkerState, deadline: Option<u64>, clock: u64)
    ensures
        Cycle::start(parker, deadline, clock).inv(),
{
}

proof fn lemma_inv_next(cycle: Cycle, step: Step)
    requires
        cycle.inv(),
        cycle.enabled(step),
    ensures
        cycle.next(step).inv(),
{
}

proof fn lemma_inv_run(start: Cycle, steps: Seq<Step>)
    requires
        start.inv(),
        start.possible(steps),
    ensures
        start.run(steps).inv(),
        start.run(steps).deadline == start.deadline,
        start.run(steps).parker.backend == start.parker.backend,
        start.run(steps).parker.key == start.parker.key,
    decreases steps.len(),
{
    if steps.len() > 0 {
        lemma_inv_run(start, steps.drop_last());
        lemma_inv_next(start.run(steps.drop_last()), steps.last());
    }
}

/// A cycle goes through its phases in one direction: from unarmed to
/// prepared, from there into the park, and from the park to one of its
/// two ends. Only the preparation leaves the first phase, no step goes
/// back, and once the park has ended nothing moves the waiter again.
pub proof fn law_phases_advance(cycle: Cycle, step: Step)
    requires
        cycle.enabled(step),
    ensures
        cycle.next(step).phase() == cycle.phase() || cycle.next(step).phase().depth()
            > cycle.phase().depth(),
        cycle.phase() == Phase::Unarmed && cycle.next(step).phase() != Phase::Unarmed ==> step
            == Step::Prepare && cycle.next(step).phase() == Phase::Prepared,
        cycle.waiter is Returned ==> cycle.next(step).waiter == cycle.waiter,
{
}

/// No wakeup is lost. Take any execution of a cycle, with or without a
/// deadline: once the waker has used up its handle, the waiter is not
/// asleep and will not fall asleep again. If it is about to enter a wait,
/// the wait lets it through; if it runs, its next question is answered
/// with "woken".
pub proof fn law_wakeup_is_never_lost(
    parker: ParkerState,
    deadline: Option<u64>,
    clock: u64,
    steps: Seq<Step>,
)
    requires
        Cycle::start(parker, deadline, clock).possible(steps),
    ensures
        ({
            let cycle = Cycle::start(parker, deadline, clock).run(steps);
            cycle.waker is Finished ==> {
                &&& !(cycle.waiter is Asleep)
                &&& cycle.waiter is Entering ==> cycle.next(Step::Enter).waiter is Ready
                &&& cycle.waiter is Ready ==> cycle.next(Step::Check).waiter == Waiter::Returned(
                    true,
                )
            }
        }),
{
    lemma_inv_start(parker, deadline, clock);
    lemma_inv_run(Cycle::start(parker, deadline, clock), steps);
}

/// No release is left behind. On keyed events a release blocks the
/// waker until the waiter comes to meet it. Take any execution of a
/// cycle: while a release is owed or under way, the park has not
/// returned, and the waiter is on its way into a wait. If it runs, its
/// next question is answered with "wait", even where its deadline has
/// passed; the wait takes it in; and once it sleeps while the waker is
/// blocked, the two can meet.
pub proof fn law_release_is_met(
    parker: ParkerState,
    deadline: Option<u64>,
    clock: u64,
    steps: Seq<Step>,
)
    requires
        Cycle::start(parker, deadline, clock).possible(steps),
    ensures
        ({
            let cycle = Cycle::start(parker, deadline, clock).run(steps);
            let owed = cycle.waker is Releasing || (cycle.waker matches Waker::Marked(handle)
                && handle.wake() matches Some(wake) && wake.backend == Backend::KeyedEvent);
            owed ==> {
                &&& cycle.waiter is Ready || cycle.waiter is Entering || cycle.waiter is Asleep
                &&& cycle.waiter is Ready ==> cycle.next(Step::Check).waiter is Entering
                &&& cycle.waiter is Entering ==> cycle.next(Step::Enter).waiter is Asleep
                &&& cycle.waiter is Asleep && cycle.waker is Releasing ==> cycle.enabled(
                    Step::Meet,
                )
            }
        }),
{
    lemma_inv_start(parker, deadline, clock);
    lemma_inv_run(Cycle::start(parker, deadline, clock), steps);
}

/// A park without a deadline, matched with an unpark, always comes to
/// its end. Take any execution of such a cycle. The park has returned
/// only if the waker marked the waiter, and then with "woken". Until it
/// has returned, one of the two threads can move, or they can meet: the
/// cycle is never stuck. And every such move brings the end nearer, by a
/// measure that only a spurious end of a sleep can raise again.
pub proof fn law_park_returns(parker: ParkerState, clock: u64, steps: Seq<Step>)
    requires
        Cycle::start(parker, None, clock).possible(steps),
    ensures
        ({
            let cycle = Cycle::start(parker, None, clock).run(steps);
            &&& cycle.waiter is Returned ==> {
                &&& cycle.waiter == Waiter::Returned(true)
                &&& !(cycle.waker is Idle)
            }
            &&& !(cycle.waiter is Returned) ==> cycle.can_progress()
            &&& forall|step: Step|
                step.is_progress() && cycle.enabled(step) ==> (#[trigger] cycle.next(
                    step,
                )).distance() < cycle.distance()
        }),
{
    let start = Cycle::start(parker, None, clock);
    lemma_inv_start(parker, None, clock);
    lemma_inv_run(start, steps);
    let cycle = start.run(steps);
    if !(cycle.waiter is Returned) {
        let step = match cycle.waiter {
            Waiter::Unarmed => Step::Prepare,
            Waiter::Ready(_) => Step::Check,
            Waiter::Entering(_) => Step::Enter,
            _ => match cycle.waker {
                Waker::Idle => Step::Mark,
                Waker::Marked(_) => Step::Wake,
                _ => Step::Meet,
            },
        };
        assert(step.is_progress() && cycle.enabled(step));
    }
}

/// A park that nobody unparks times out. Take any execution of a cycle
/// with a deadline in which the waker has not marked the waiter. If the
/// park has returned, it has returned `false`, the clock has reached the
/// deadline, and the parker says "timed out". Until then the waiter
/// never sleeps without a timeout.
pub proof fn law_park_without_unpark_times_out(
    parker: ParkerState,
    deadline: u64,
    clock: u64,
    steps: Seq<Step>,
)
    requires
        Cycle::start(parker, Some(deadline), clock).possible(steps),
        Cycle::start(parker, Some(deadline), clock).run(steps).waker is Idle,
    ensures
        ({
            let cycle = Cycle::start(parker, Some(deadline), clock).run(steps);
            &&& cycle.waiter is Returned ==> {
                &&& cycle.waiter == Waiter::Returned(false)
                &&& cycle.clock >= deadline
                &&& cycle.parker.timed_out()
            }
            &&& cycle.waiter != Waiter::Asleep(None)
            &&& cycle.waiter is Entering ==> cycle.next(Step::Enter).waiter != Waiter::Asleep(None)
        }),
{
    lemma_inv_start(parker, Some(deadline), clock);
    lemma_inv_run(Cycle::start(parker, Some(deadline), clock), steps);
}

/// When an unpark races with the deadline, the answer is one of the
/// two and never both. Take any execution of a cycle in which the park
/// has returned. If it returned `true`, the waker had marked the waiter,
/// and the parker says "not timed out". If it returned `false`, the
/// clock had reached the deadline, and from then on the parker says
/// "timed out" exactly as long as the waker has not marked the waiter: a
/// mark that comes after the return turns the answer to "not timed out",
/// and nothing turns it back.
pub proof fn law_timeout_answer_is_consistent(
    parker: ParkerState,
    deadline: Option<u64>,
    clock: u64,
    steps: Seq<Step>,
)
    requires
        Cycle::start(parker, deadline, clock).possible(steps),
        Cycle::start(parker, deadline, clock).run(steps).waiter is Returned,
    ensures
        ({
            let cycle = Cycle::start(parker, deadline, clock).run(steps);
            &&& cycle.waiter == Waiter::Returned(true) ==> !(cycle.waker is Idle)
                && !cycle.parker.timed_out()
            &&& cycle.waiter == Waiter::Returned(false) ==> {
                &&& cycle.past_deadline()
                &&& cycle.parker.timed_out() <==> cycle.waker is Idle
            }
        }),
{
    lemma_inv_start(parker, deadline, clock);
    lemma_inv_run(Cycle::start(parker, deadline, clock), steps);
}

/// An unpark wakes the parker that made the handle, and no other. The
/// wake of a handle names the key of the parker that was marked, on the
/// backend of that parker; and in any execution of a cycle the wake that
/// the waker holds or is blocked in is one for the key of the cycle's
/// own parker.
pub proof fn law_unpark_wakes_its_own_parker(
    parker: ParkerState,
    deadline: Option<u64>,
    clock: u64,
    steps: Seq<Step>,
)
    requires
        Cycle::start(parker, deadline, clock).possible(steps),
    ensures
        parker.unpark_lock().1.wake() matches Some(wake) ==> wake.key == parker.key
            && wake.backend == parker.backend,
        ({
            let cycle = Cycle::start(parker, deadline, clock).run(steps);
            &&& cycle.parker.key == parker.key
            &&& cycle.waker matches Waker::Marked(handle) ==> (handle.wake() matches Some(wake)
                ==> wake.key == parker.key && wake.backend == parker.backend)
            &&& cycle.waker matches Waker::Releasing(key) ==> key == parker.key
        }),
{
    lemma_inv_start(parker, deadline, clock);
    lemma_inv_run(Cycle::start(parker, deadline, clock), steps);
}

} // verus!
