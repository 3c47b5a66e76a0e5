use thread_parker::backend::{Backend, BackendSlot, Published};
use thread_parker::parker::{KeyState, ParkStep, ThreadParker, UnparkHandle, WaitOutcome, Wake};
use thread_parker::timeout::{keyed_event_interval, wait_address_millis, INFINITE};

const MILLIS_50: u64 = 50_000_000;

fn armed(backend: Backend, key: usize) -> ThreadParker {
    let mut parker = ThreadParker::from_state(backend, key, KeyState::Unparked);
    parker.prepare_park();
    parker
}

#[test]
fn select_prefers_waiting_on_an_address() {
    assert_eq!(Backend::select(true, true), Some(Backend::WaitAddress));
    assert_eq!(Backend::select(true, false), Some(Backend::WaitAddress));
    assert_eq!(Backend::select(false, true), Some(Backend::KeyedEvent));
    assert_eq!(Backend::select(false, false), None);
}

#[test]
fn empty_slot_loads_nothing() {
    let slot = BackendSlot::new();
    assert_eq!(slot.load(), None);
}

#[test]
fn first_publication_stays() {
    let mut slot = BackendSlot::new();
    let first = slot.publish(Backend::KeyedEvent);
    assert_eq!(first, Published { backend: Backend::KeyedEvent, installed: true });
    let second = slot.publish(Backend::WaitAddress);
    assert_eq!(second, Published { backend: Backend::KeyedEvent, installed: false });
    assert_eq!(slot.load(), Some(Backend::KeyedEvent));
}

#[test]
fn get_binds_once_and_then_ignores_the_probes() {
    let mut slot = BackendSlot::new();
    assert_eq!(Backend::get(&mut slot, false, true), Backend::KeyedEvent);
    assert_eq!(Backend::get(&mut slot, true, true), Backend::KeyedEvent);
    assert_eq!(Backend::get(&mut slot, false, false), Backend::KeyedEvent);
    assert_eq!(slot.load(), Some(Backend::KeyedEvent));
}

#[test]
fn racing_threads_end_with_one_backend() {
    // Three threads all find the slot empty, then publish in some order.
    let mut slot = BackendSlot::new();
    let seen: Vec<Option<Backend>> = vec![slot.load(), slot.load(), slot.load()];
    assert_eq!(seen, vec![None, None, None]);
    let a = slot.publish(Backend::WaitAddress);
    let b = slot.publish(Backend::KeyedEvent);
    let c = slot.publish(Backend::WaitAddress);
    assert_eq!(a.backend, Backend::WaitAddress);
    assert_eq!(b.backend, Backend::WaitAddress);
    assert_eq!(c.backend, Backend::WaitAddress);
    assert_eq!((a.installed, b.installed, c.installed), (true, false, false));
    assert_eq!(slot.load(), Some(Backend::WaitAddress));
}

#[test]
fn new_binds_the_preferred_backend_and_is_unarmed() {
    let mut slot = BackendSlot::new();
    let parker = ThreadParker::new(&mut slot, true, true, 0x1000);
    assert_eq!(parker.backend(), Backend::WaitAddress);
    assert_eq!(parker.key(), 0x1000);
    assert_eq!(parker.state(), KeyState::Unparked);
    assert_eq!(slot.load(), Some(Backend::WaitAddress));
}

#[test]
fn new_takes_the_published_backend() {
    let mut slot = BackendSlot::new();
    slot.publish(Backend::KeyedEvent);
    let parker = ThreadParker::new(&mut slot, true, true, 8);
    assert_eq!(parker.backend(), Backend::KeyedEvent);
    assert_eq!(slot.load(), Some(Backend::KeyedEvent));
}

#[test]
fn key_state_words_round_trip() {
    assert_eq!(KeyState::Unparked.word(), 0);
    assert_eq!(KeyState::Parked.word(), 1);
    assert_eq!(KeyState::TimedOut.word(), 2);
    assert_eq!(KeyState::from_word(0), Some(KeyState::Unparked));
    assert_eq!(KeyState::from_word(1), Some(KeyState::Parked));
    assert_eq!(KeyState::from_word(2), Some(KeyState::TimedOut));
    assert_eq!(KeyState::from_word(3), None);
    assert_eq!(KeyState::from_word(usize::MAX), None);
}

#[test]
fn prepare_arms_whatever_the_last_cycle_left() {
    for backend in [Backend::KeyedEvent, Backend::WaitAddress] {
        for state in [KeyState::Unparked, KeyState::Parked, KeyState::TimedOut] {
            let mut parker = ThreadParker::from_state(backend, 3, state);
            parker.prepare_park();
            assert_eq!(parker.state(), KeyState::Parked);
            assert_eq!(parker.backend(), backend);
            assert_eq!(parker.key(), 3);
        }
    }
}

#[test]
fn park_then_unpark_on_an_address() {
    let mut parker = armed(Backend::WaitAddress, 0x40);
    assert_eq!(parker.park(None), ParkStep::Wait(None));
    let handle = parker.unpark_lock();
    assert!(matches!(handle, UnparkHandle::WaitAddress(0x40)));
    assert_eq!(parker.state(), KeyState::Unparked);
    assert_eq!(handle.unpark(), Some(Wake { backend: Backend::WaitAddress, key: 0x40 }));
    assert_eq!(parker.park(Some(WaitOutcome::Woken)), ParkStep::Done(true));
}

#[test]
fn park_then_unpark_on_keyed_events() {
    let mut parker = armed(Backend::KeyedEvent, 0x48);
    assert_eq!(parker.park(None), ParkStep::Wait(None));
    let handle = parker.unpark_lock();
    assert!(matches!(handle, UnparkHandle::KeyedEvent(Some(0x48))));
    assert_eq!(handle.unpark(), Some(Wake { backend: Backend::KeyedEvent, key: 0x48 }));
    assert_eq!(parker.park(Some(WaitOutcome::Woken)), ParkStep::Done(true));
}

#[test]
fn unpark_before_park_is_not_lost_on_an_address() {
    let mut parker = armed(Backend::WaitAddress, 1);
    let handle = parker.unpark_lock();
    assert!(handle.unpark().is_some());
    assert_eq!(parker.park(None), ParkStep::Done(true));
}

#[test]
fn unpark_before_park_is_met_on_keyed_events() {
    let mut parker = armed(Backend::KeyedEvent, 1);
    let handle = parker.unpark_lock();
    // The release blocks until the waiter comes, so the waiter must wait.
    assert_eq!(parker.park(None), ParkStep::Wait(None));
    assert!(handle.unpark().is_some());
    assert_eq!(parker.park(Some(WaitOutcome::Woken)), ParkStep::Done(true));
}

#[test]
fn spurious_wake_on_an_address_parks_again() {
    let parker = armed(Backend::WaitAddress, 1);
    assert_eq!(parker.park(None), ParkStep::Wait(None));
    assert_eq!(parker.park(Some(WaitOutcome::Woken)), ParkStep::Wait(None));
    assert_eq!(parker.park(Some(WaitOutcome::TimedOut)), ParkStep::Wait(None));
}

#[test]
fn park_until_without_unpark_times_out() {
    for backend in [Backend::KeyedEvent, Backend::WaitAddress] {
        let mut parker = armed(backend, 0x50);
        assert_eq!(parker.park_until(None, 0, MILLIS_50), ParkStep::Wait(Some(MILLIS_50)));
        assert_eq!(
            parker.park_until(Some(WaitOutcome::TimedOut), MILLIS_50, MILLIS_50),
            ParkStep::Done(false)
        );
        assert!(parker.timed_out());
    }
}

#[test]
fn park_until_gives_the_time_that_is_left() {
    for backend in [Backend::KeyedEvent, Backend::WaitAddress] {
        let mut parker = armed(backend, 1);
        assert_eq!(parker.park_until(None, 20, 50), ParkStep::Wait(Some(30)));
        assert_eq!(parker.park_until(None, 49, 50), ParkStep::Wait(Some(1)));
    }
}

#[test]
fn park_until_past_the_deadline_does_not_wait() {
    for backend in [Backend::KeyedEvent, Backend::WaitAddress] {
        let mut parker = armed(backend, 1);
        assert_eq!(parker.park_until(None, 60, 50), ParkStep::Done(false));
        assert!(parker.timed_out());
        let mut parker = armed(backend, 1);
        assert_eq!(parker.park_until(None, 50, 50), ParkStep::Done(false));
    }
}

#[test]
fn early_return_of_an_address_wait_waits_for_the_rest() {
    let mut parker = armed(Backend::WaitAddress, 1);
    assert_eq!(parker.park_until(None, 0, 50), ParkStep::Wait(Some(50)));
    assert_eq!(parker.park_until(Some(WaitOutcome::Woken), 30, 50), ParkStep::Wait(Some(20)));
    assert_eq!(parker.park_until(Some(WaitOutcome::TimedOut), 49, 50), ParkStep::Wait(Some(1)));
    assert_eq!(parker.park_until(Some(WaitOutcome::TimedOut), 50, 50), ParkStep::Done(false));
    assert_eq!(parker.state(), KeyState::Parked);
}

#[test]
fn park_until_woken_before_the_deadline() {
    let mut parker = armed(Backend::WaitAddress, 9);
    assert_eq!(parker.park_until(None, 0, 50), ParkStep::Wait(Some(50)));
    let handle = parker.unpark_lock();
    assert!(handle.unpark().is_some());
    assert_eq!(parker.park_until(Some(WaitOutcome::Woken), 10, 50), ParkStep::Done(true));
    assert!(!parker.timed_out());

    let mut parker = armed(Backend::KeyedEvent, 9);
    assert_eq!(parker.park_until(None, 0, 50), ParkStep::Wait(Some(50)));
    let handle = parker.unpark_lock();
    assert!(handle.unpark().is_some());
    assert_eq!(parker.park_until(Some(WaitOutcome::Woken), 10, 50), ParkStep::Done(true));
    assert!(!parker.timed_out());
}

#[test]
fn mark_wins_the_race_with_the_deadline_on_an_address() {
    let mut parker = armed(Backend::WaitAddress, 9);
    assert_eq!(parker.park_until(None, 0, 50), ParkStep::Wait(Some(50)));
    let handle = parker.unpark_lock();
    // The wait times out before the wake is delivered; the word decides.
    assert_eq!(parker.park_until(Some(WaitOutcome::TimedOut), 50, 50), ParkStep::Done(true));
    assert!(!parker.timed_out());
    assert!(handle.unpark().is_some());
}

#[test]
fn mark_wins_the_race_with_the_deadline_on_keyed_events() {
    let mut parker = armed(Backend::KeyedEvent, 9);
    assert_eq!(parker.park_until(None, 0, 50), ParkStep::Wait(Some(50)));
    let handle = parker.unpark_lock();
    assert!(matches!(handle, UnparkHandle::KeyedEvent(Some(9))));
    // The wait times out although the waiter is marked: the release is
    // under way and has to be met.
    assert_eq!(parker.park_until(Some(WaitOutcome::TimedOut), 50, 50), ParkStep::Wait(None));
    assert_eq!(parker.state(), KeyState::TimedOut);
    assert_eq!(handle.unpark(), Some(Wake { backend: Backend::KeyedEvent, key: 9 }));
    assert_eq!(parker.park_until(Some(WaitOutcome::Woken), 51, 50), ParkStep::Done(true));
    // Woken after all: the word no longer says "timed out".
    assert_eq!(parker.state(), KeyState::Unparked);
    assert!(!parker.timed_out());
}

#[test]
fn deadline_wins_the_race_on_keyed_events() {
    let mut parker = armed(Backend::KeyedEvent, 9);
    assert_eq!(parker.park_until(None, 0, 50), ParkStep::Wait(Some(50)));
    assert_eq!(parker.park_until(Some(WaitOutcome::TimedOut), 50, 50), ParkStep::Done(false));
    assert!(parker.timed_out());
    // An unparker that comes now owes no release. Its mark turns the
    // answer, since it has taken the waiter off the queue.
    let handle = parker.unpark_lock();
    assert!(matches!(handle, UnparkHandle::KeyedEvent(None)));
    assert_eq!(handle.unpark(), None);
    assert!(!parker.timed_out());
}

#[test]
fn deadline_wins_the_race_on_an_address() {
    let mut parker = armed(Backend::WaitAddress, 9);
    assert_eq!(parker.park_until(None, 0, 50), ParkStep::Wait(Some(50)));
    assert_eq!(parker.park_until(Some(WaitOutcome::TimedOut), 50, 50), ParkStep::Done(false));
    assert!(parker.timed_out());
    let handle = parker.unpark_lock();
    assert_eq!(handle.unpark(), Some(Wake { backend: Backend::WaitAddress, key: 9 }));
    assert!(!parker.timed_out());
}

#[test]
fn timed_out_reads_the_word_by_backend() {
    let on = |backend, state| ThreadParker::from_state(backend, 0, state).timed_out();
    assert!(!on(Backend::WaitAddress, KeyState::Unparked));
    assert!(on(Backend::WaitAddress, KeyState::Parked));
    assert!(on(Backend::WaitAddress, KeyState::TimedOut));
    assert!(!on(Backend::KeyedEvent, KeyState::Unparked));
    assert!(!on(Backend::KeyedEvent, KeyState::Parked));
    assert!(on(Backend::KeyedEvent, KeyState::TimedOut));
}

#[test]
fn unpark_lock_of_an_unarmed_keyed_parker_owes_nothing() {
    let mut parker = ThreadParker::from_state(Backend::KeyedEvent, 5, KeyState::Unparked);
    let handle = parker.unpark_lock();
    assert_eq!(handle.unpark(), None);
    assert_eq!(parker.state(), KeyState::Unparked);
}

#[test]
fn handle_names_the_parker_that_made_it() {
    for backend in [Backend::KeyedEvent, Backend::WaitAddress] {
        let mut one = armed(backend, 0x100);
        let mut other = armed(backend, 0x200);
        let wake_one = one.unpark_lock().unpark();
        assert_eq!(wake_one, Some(Wake { backend, key: 0x100 }));
        assert_eq!(other.state(), KeyState::Parked);
        let wake_other = other.unpark_lock().unpark();
        assert_eq!(wake_other, Some(Wake { backend, key: 0x200 }));
    }
}

#[test]
fn milliseconds_round_up() {
    assert_eq!(wait_address_millis(0), 0);
    assert_eq!(wait_address_millis(1), 1);
    assert_eq!(wait_address_millis(1_000_000), 1);
    assert_eq!(wait_address_millis(1_000_001), 2);
    assert_eq!(wait_address_millis(MILLIS_50), 50);
    assert_eq!(wait_address_millis(4_294_967_294_000_000), 4_294_967_294);
}

#[test]
fn milliseconds_stay_below_no_timeout() {
    assert_eq!(INFINITE, u32::MAX);
    assert_eq!(wait_address_millis(4_294_967_294_000_001), INFINITE - 1);
    assert_eq!(wait_address_millis(4_294_967_295_000_000), INFINITE - 1);
    assert_eq!(wait_address_millis(u64::MAX), INFINITE - 1);
}

#[test]
fn keyed_event_intervals_are_negative_ticks() {
    assert_eq!(keyed_event_interval(0), 0);
    assert_eq!(keyed_event_interval(1), -1);
    assert_eq!(keyed_event_interval(100), -1);
    assert_eq!(keyed_event_interval(101), -2);
    assert_eq!(keyed_event_interval(MILLIS_50), -500_000);
    assert_eq!(keyed_event_interval(u64::MAX), -184_467_440_737_095_517);
}
