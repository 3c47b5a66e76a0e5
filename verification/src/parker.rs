//! The per-waiter handle and the transitions of one parking cycle.
//!
//! A parker is the word behind a key together with the backend it is bound
//! to. Every operation is one atomic transition on that word. A caller that
//! shares the word between threads applies the transition in one atomic
//! update, and blocks in the native facility whenever a step says so.

use vstd::prelude::*;
use crate::backend::{Backend, BackendSlot};

verus! {

/// What the word behind a key says about its waiter.
#[derive(Clone, Copy, PartialEq, Eq, Structural, Debug)]
pub enum KeyState {
    /// Not armed, or marked by an unparker: the waiter has nothing to wait for.
    Unparked,
    /// Armed: the waiter waits, or is about to.
    Parked,
    /// The waiter gave up at its deadline before any unparker marked it.
    TimedOut,
}

impl KeyState {
    /// The word that stands for this state in memory.
    pub open spec fn spec_word(self) -> usize {
        match self {
            KeyState::Unparked => 0,
            KeyState::Parked => 1,
            KeyState::TimedOut => 2,
        }
    }

    /// The state that a word stands for, if it stands for any.
    pub open spec fn spec_from_word(word: usize) -> Option<KeyState> {
        if word == 0 {
            Some(KeyState::Unparked)
        } else if word == 1 {
            Some(KeyState::Parked)
        } else if word == 2 {
            Some(KeyState::TimedOut)
        } else {
            None
        }
    }

    /// Encodes the state as the word to store behind the key.
    pub fn word(self) -> (word: usize)
        ensures
            word == self.spec_word(),
            Self::spec_from_word(word) == Some(self),
    {
        match self {
            KeyState::Unparked => 0,
            KeyState::Parked => 1,
            KeyState::TimedOut => 2,
        }
    }

    /// Decodes a word read from behind a key.
    pub fn from_word(word: usize) -> (state: Option<KeyState>)
        ensures
            state == Self::spec_from_word(word),
            state matches Some(s) ==> s.spec_word() == word,
    {
        if word == 0 {
            Some(KeyState::Unparked)
        } else if word == 1 {
            Some(KeyState::Parked)
        } else if word == 2 {
            Some(KeyState::TimedOut)
        } else {
            None
        }
    }
}

/// How a native wait came back.
#[derive(Clone, Copy, PartialEq, Eq, Structural, Debug)]
pub enum WaitOutcome {
    /// The wait ended before its timeout. On keyed events this is the
    /// meeting with a releaser; on an address it may also be spurious.
    Woken,
    /// The timeout of the wait ran out.
    TimedOut,
}

/// What a parking thread does next.
#[derive(Clone, Copy, PartialEq, Eq, Structural, Debug)]
pub enum ParkStep {
    /// Parking is over. `true`: the waiter was woken; `false`: its
    /// deadline passed.
    Done(bool),
    /// Block in the native facility, for at most the given time or, with
    /// `None`, until woken; then ask again with the outcome of the wait.
    Wait(Option<u64>),
}

/// An operating-system wake that an unparker owes a waiter.
#[derive(Clone, Copy, PartialEq, Eq, Structural, Debug)]
pub struct Wake {
    /// The facility to deliver the wake through.
    pub backend: Backend,
    /// The key of the waiter to wake.
    pub key: usize,
}

/// The mathematical value of a parker.
pub struct ParkerState {
    /// The facility the parker is bound to.
    pub backend: Backend,
    /// The key that identifies the waiter slot to the facility.
    pub key: usize,
    /// What the word behind the key holds.
    pub state: KeyState,
}

impl ParkerState {
    /// The parker with another word behind its key.
    pub open spec fn with_state(self, state: KeyState) -> ParkerState {
        ParkerState { backend: self.backend, key: self.key, state }
    }

    /// Arming: whatever the last cycle left behind, the word says `Parked`.
    pub open spec fn prepare(self) -> ParkerState {
        self.with_state(KeyState::Parked)
    }

    /// Whether the word says that no unparker has marked the waiter. On
    /// an address every word but `Unparked` says so; on keyed events only
    /// the `TimedOut` that the waiter wrote itself.
    pub open spec fn timed_out(self) -> bool {
        match self.backend {
            Backend::WaitAddress => self.state != KeyState::Unparked,
            Backend::KeyedEvent => self.state == KeyState::TimedOut,
        }
    }

    /// The next step of an untimed park, given how the last wait of this
    /// park came back (`None` before the first).
    pub open spec fn park(self, outcome: Option<WaitOutcome>) -> ParkStep {
        match self.backend {
            Backend::WaitAddress => if self.state == KeyState::Unparked {
                ParkStep::Done(true)
            } else {
                ParkStep::Wait(None)
            },
            Backend::KeyedEvent => if outcome == Some(WaitOutcome::Woken) {
                ParkStep::Done(true)
            } else {
                ParkStep::Wait(None)
            },
        }
    }

    /// Giving up on keyed events: the word becomes `TimedOut`. If an
    /// unparker had marked the waiter already, its release is under way
    /// and must still be met by one more wait; otherwise parking is over.
    pub open spec fn expire(self) -> (ParkerState, ParkStep) {
        (
            self.with_state(KeyState::TimedOut),
            if self.state == KeyState::Unparked {
                ParkStep::Wait(None)
            } else {
                ParkStep::Done(false)
            },
        )
    }

    /// The next step of a park with a deadline, at time `now`, given how
    /// the last wait of this park came back (`None` before the first).
    /// On keyed events a waiter that was met takes back the `TimedOut`
    /// that it may have written when a wait ran out on it: it was woken,
    /// and its word says so.
    pub open spec fn park_until(self, outcome: Option<WaitOutcome>, now: u64, deadline: u64) -> (
        ParkerState,
        ParkStep,
    ) {
        match self.backend {
            Backend::WaitAddress => (
                self,
                if self.state == KeyState::Unparked {
                    ParkStep::Done(true)
                } else if deadline <= now {
                    ParkStep::Done(false)
                } else {
                    ParkStep::Wait(Some((deadline - now) as u64))
                },
            ),
            Backend::KeyedEvent => match outcome {
                Some(WaitOutcome::Woken) => (
                    self.with_state(KeyState::Unparked),
                    ParkStep::Done(true),
                ),
                Some(WaitOutcome::TimedOut) => self.expire(),
                None => if deadline <= now {
                    self.expire()
                } else {
                    (self, ParkStep::Wait(Some((deadline - now) as u64)))
                },
            },
        }
    }

    /// Marking: the word becomes `Unparked`, and the handle says what is
    /// still owed. On an address a wake is always owed. On keyed events a
    /// release is owed only to a waiter that was still `Parked`: one that
    /// gave up will not come to meet it.
    pub open spec fn unpark_lock(self) -> (ParkerState, UnparkHandle) {
        (
            self.with_state(KeyState::Unparked),
            match self.backend {
                Backend::WaitAddress => UnparkHandle::WaitAddress(self.key),
                Backend::KeyedEvent => UnparkHandle::KeyedEvent(
                    if self.state == KeyState::Parked {
                        Some(self.key)
                    } else {
                        None
                    },
                ),
            },
        )
    }
}

/// A handle for putting one thread to sleep until another wakes it up.
pub struct ThreadParker {
    key: usize,
    state: KeyState,
    backend: Backend,
}

impl View for ThreadParker {
    type V = ParkerState;

    closed spec fn view(&self) -> ParkerState {
        ParkerState { backend: self.backend, key: self.key, state: self.state }
    }
}

impl ThreadParker {
    /// A parker holds no resource of the host: one can be made whenever
    /// a thread is about to block.
    pub const IS_CHEAP_TO_CONSTRUCT: bool = true;

    /// A parker for the waiter slot `key`, bound to the backend of the
    /// process and not armed. The backend is bound here, on first use,
    /// so that no later operation of the parker can find the host
    /// unsupported; on a host without any facility the caller has to stop
    /// the process instead of calling.
    pub fn new(slot: &mut BackendSlot, wait_address: bool, keyed_event: bool, key: usize) -> (parker:
        ThreadParker)
        requires
            old(slot)@ is Some || wait_address || keyed_event,
        ensures
            final(slot)@ == Some(parker@.backend),
            old(slot)@ is Some ==> final(slot)@ == old(slot)@,
            old(slot)@ is None ==> Some(parker@.backend) == Backend::spec_select(
                wait_address,
                keyed_event,
            ),
            parker@.key == key,
            parker@.state == KeyState::Unparked,
    {
        ThreadParker {
            key,
            state: KeyState::Unparked,
            backend: Backend::get(slot, wait_address, keyed_event),
        }
    }

    /// The parker of slot `key` on `backend`, as it is with `state` behind
    /// its key.
    pub fn from_state(backend: Backend, key: usize, state: KeyState) -> (parker: ThreadParker)
        ensures
            parker@ == (ParkerState { backend, key, state }),
    {
        ThreadParker { key, state, backend }
    }

    /// The backend that the parker is bound to.
    pub fn backend(&self) -> (backend: Backend)
        ensures
            backend == self@.backend,
    {
        self.backend
    }

    /// The key of the waiter slot.
    pub fn key(&self) -> (key: usize)
        ensures
            key == self@.key,
    {
        self.key
    }

    /// What the word behind the key holds.
    pub fn state(&self) -> (state: KeyState)
        ensures
            state == self@.state,
    {
        self.state
    }

    /// Prepares the parker. This is to be called before the waiter is made
    /// visible to any unparker, so that a wake between then and the park
    /// is not lost.
    pub fn prepare_park(&mut self)
        ensures
            final(self)@ == old(self)@.prepare(),
    {
        self.state = KeyState::Parked;
    }

    /// Checks whether the park timed out. The answer is authoritative when
    /// asked under the lock of the wait queue, after `park_until` has
    /// ended with `false`: the waiter is then still to be taken off the
    /// queue exactly if the answer is `true`.
    pub fn timed_out(&self) -> (timed_out: bool)
        ensures
            timed_out == self@.timed_out(),
    {
        match self.backend {
            Backend::WaitAddress => self.state != KeyState::Unparked,
            Backend::KeyedEvent => self.state == KeyState::TimedOut,
        }
    }

    /// Parks the thread until it is unparked: says what the thread does
    /// next, given how its last wait came back (`None` before the first
    /// wait). The thread blocks as told and asks again, until the answer
    /// is `Done`. To be called after the waiter was added to the queue and
    /// the queue was unlocked.
    pub fn park(&self, outcome: Option<WaitOutcome>) -> (step: ParkStep)
        ensures
            step == self@.park(outcome),
            step != ParkStep::Done(false),
    {
        match self.backend {
            Backend::WaitAddress => {
                if self.state == KeyState::Unparked {
                    ParkStep::Done(true)
                } else {
                    ParkStep::Wait(None)
                }
            },
            Backend::KeyedEvent => {
                match outcome {
                    Some(WaitOutcome::Woken) => ParkStep::Done(true),
                    _ => ParkStep::Wait(None),
                }
            },
        }
    }

    /// Parks the thread until it is unparked or `deadline` is reached:
    /// says what the thread does next at time `now`, given how its last
    /// wait came back (`None` before the first wait). `Done(true)` means
    /// unparked, `Done(false)` timed out.
    pub fn park_until(&mut self, outcome: Option<WaitOutcome>, now: u64, deadline: u64) -> (step:
        ParkStep)
        ensures
            (final(self)@, step) == old(self)@.park_until(outcome, now, deadline),
            step matches ParkStep::Wait(Some(timeout)) ==> now + timeout == deadline,
            step == ParkStep::Done(true) ==> !final(self)@.timed_out(),
    {
        match self.backend {
            Backend::WaitAddress => {
                if self.state == KeyState::Unparked {
                    ParkStep::Done(true)
                } else if deadline <= now {
                    ParkStep::Done(false)
                } else {
                    ParkStep::Wait(Some(deadline - now))
                }
            },
            Backend::KeyedEvent => {
                match outcome {
                    Some(WaitOutcome::Woken) => {
                        self.state = KeyState::Unparked;
                        ParkStep::Done(true)
                    },
                    Some(WaitOutcome::TimedOut) => self.expire(),
                    None => {
                        if deadline <= now {
                            self.expire()
                        } else {
                            ParkStep::Wait(Some(deadline - now))
                        }
                    },
                }
            },
        }
    }

    /// Writes `TimedOut` behind the key and tells from the word it
    /// replaced whether a release is still to be met.
    fn expire(&mut self) -> (step: ParkStep)
        ensures
            (final(self)@, step) == old(self)@.expire(),
    {
        let before = self.state;
        self.state = KeyState::TimedOut;
        if before == KeyState::Unparked {
            ParkStep::Wait(None)
        } else {
            ParkStep::Done(false)
        }
    }

    /// Marks the waiter as unparked and returns the handle for waking it.
    /// This is the bookkeeping half of an unpark, to be done while the
    /// lock of the wait queue is held; it wakes nobody.
    pub fn unpark_lock(&mut self) -> (handle: UnparkHandle)
        ensures
            (final(self)@, handle) == old(self)@.unpark_lock(),
    {
        let before = self.state;
        self.state = KeyState::Unparked;
        match self.backend {
            Backend::WaitAddress => UnparkHandle::WaitAddress(self.key),
            Backend::KeyedEvent => {
                if before == KeyState::Parked {
                    UnparkHandle::KeyedEvent(Some(self.key))
                } else {
                    UnparkHandle::KeyedEvent(None)
                }
            },
        }
    }
}

/// Handle for a thread that is about to be unparked. The thread is marked
/// as unparked while the queue lock is held; the wake itself is put off
/// until the lock is released. The handle is used up by its one `unpark`;
/// to drop it instead would leave the waiter parked.
#[must_use]
#[derive(Debug)]
pub enum UnparkHandle {
    /// A release on keyed events, for the key inside; `None` where the
    /// waiter had given up and no release is owed.
    KeyedEvent(Option<usize>),
    /// A wake of one sleeper on the address that is the key inside.
    WaitAddress(usize),
}

impl UnparkHandle {
    /// The wake that the handle stands for.
    pub open spec fn wake(self) -> Option<Wake> {
        match self {
            UnparkHandle::KeyedEvent(Some(key)) => Some(
                Wake { backend: Backend::KeyedEvent, key },
            ),
            UnparkHandle::KeyedEvent(None) => None,
            UnparkHandle::WaitAddress(key) => Some(Wake { backend: Backend::WaitAddress, key }),
        }
    }

    /// Wakes up the parked thread: hands over the wake to deliver, if one
    /// is owed. To be called after the queue lock is released.
    pub fn unpark(self) -> (wake: Option<Wake>)
        ensures
            wake == self.wake(),
    {
        match self {
            UnparkHandle::KeyedEvent(Some(key)) => Some(Wake { backend: Backend::KeyedEvent, key }),
            UnparkHandle::KeyedEvent(None) => None,
            UnparkHandle::WaitAddress(key) => Some(Wake { backend: Backend::WaitAddress, key }),
        }
    }
}

} // verus!
