//! Selection of the native wait facility and its publish-once slot.

use vstd::prelude::*;

verus! {

/// A native wait/wake facility that a process can bind to.
#[derive(Clone, Copy, PartialEq, Eq, Structural, Debug)]
pub enum Backend {
    /// Keyed events: a waiter and a releaser meet on a key, and each blocks
    /// until the other has arrived.
    KeyedEvent,
    /// Waiting on an address: a waiter sleeps while the word at its key
    /// holds the value it expects, and a wake is a signal to one sleeper.
    WaitAddress,
}

impl Backend {
    /// The facility chosen from the probe results: waiting on an address
    /// is preferred, keyed events are the fallback.
    pub open spec fn spec_select(wait_address: bool, keyed_event: bool) -> Option<Backend> {
        if wait_address {
            Some(Backend::WaitAddress)
        } else if keyed_event {
            Some(Backend::KeyedEvent)
        } else {
            None
        }
    }

    /// Chooses the facility to bind to from the results of probing the host,
    /// in a fixed order of preference. `None` means that the host offers
    /// no facility at all, which no caller can recover from.
    pub fn select(wait_address: bool, keyed_event: bool) -> (chosen: Option<Backend>)
        ensures
            chosen == Self::spec_select(wait_address, keyed_event),
    {
        if wait_address {
            Some(Backend::WaitAddress)
        } else if keyed_event {
            Some(Backend::KeyedEvent)
        } else {
            None
        }
    }

    /// Returns the backend of the process, binding it on first use.
    ///
    /// A published backend is returned as it is, and the probe results are
    /// not looked at. With an empty slot the preferred available facility
    /// is published and returned. A host without any facility cannot be
    /// served: the caller has to stop the process instead of calling.
    pub fn get(slot: &mut BackendSlot, wait_address: bool, keyed_event: bool) -> (backend: Backend)
        requires
            old(slot)@ is Some || wait_address || keyed_event,
        ensures
            final(slot)@ == Some(backend),
            old(slot)@ is Some ==> final(slot)@ == old(slot)@,
            old(slot)@ is None ==> Some(backend) == Self::spec_select(wait_address, keyed_event),
    {
        match slot.load() {
            Some(backend) => backend,
            None => {
                let candidate = Backend::select(wait_address, keyed_event).unwrap();
                slot.publish(candidate).backend
            },
        }
    }
}

/// The process-wide slot that holds the backend once one is published.
///
/// It starts empty and is written at most once: the first publication
/// stays, whatever is offered afterwards.
pub struct BackendSlot {
    published: Option<Backend>,
}

/// What a publication attempt came to.
#[derive(Clone, Copy, PartialEq, Eq, Structural, Debug)]
pub struct Published {
    /// The backend that the slot holds after the attempt.
    pub backend: Backend,
    /// Whether the candidate of this attempt is the one in the slot. A
    /// candidate that was not installed is to be discarded by its maker.
    pub installed: bool,
}

impl View for BackendSlot {
    type V = Option<Backend>;

    closed spec fn view(&self) -> Option<Backend> {
        self.published
    }
}

impl BackendSlot {
    /// An empty slot, as at process start.
    pub fn new() -> (slot: BackendSlot)
        ensures
            slot@ is None,
    {
        BackendSlot { published: None }
    }

    /// Reads the slot: the fast path of every caller after the first.
    pub fn load(&self) -> (seen: Option<Backend>)
        ensures
            seen == observed(self@, SlotAccess::Load),
            seen == self@,
    {
        self.published
    }

    /// Offers `candidate` to the slot, as one compare-and-swap from empty:
    /// it is installed only if nothing was published before.
    pub fn publish(&mut self, candidate: Backend) -> (outcome: Published)
        ensures
            final(self)@ == slot_after(old(self)@, SlotAccess::Publish(candidate)),
            Some(outcome.backend) == observed(old(self)@, SlotAccess::Publish(candidate)),
            final(self)@ == Some(outcome.backend),
            outcome.installed == (old(self)@ is None),
            outcome.installed ==> outcome.backend == candidate,
            !outcome.installed ==> final(self)@ == old(self)@,
    {
        match self.published {
            Some(winner) => Published { backend: winner, installed: false },
            None => {
                self.published = Some(candidate);
                Published { backend: candidate, installed: true }
            },
        }
    }
}

/// One atomic access to the slot by some thread of the process.
pub enum SlotAccess {
    /// The acquiring read of the fast path.
    Load,
    /// The compare-and-swap of a thread that found the slot empty and has
    /// made a candidate of its own.
    Publish(Backend),
}

/// The slot after one access.
pub open spec fn slot_after(slot: Option<Backend>, access: SlotAccess) -> Option<Backend> {
    match (slot, access) {
        (None, SlotAccess::Publish(candidate)) => Some(candidate),
        _ => slot,
    }
}

/// What the accessing thread takes away from one access: the backend it
/// will use, or nothing after a read of the empty slot.
pub open spec fn observed(slot: Option<Backend>, access: SlotAccess) -> Option<Backend> {
    slot_after(slot, access)
}

/// The slot after a run of accesses, in the order in which they took
/// effect, on a slot that started empty.
pub open spec fn slot_after_all(accesses: Seq<SlotAccess>) -> Option<Backend>
    decreases accesses.len(),
{
    if accesses.len() == 0 {
        None
    } else {
        slot_after(slot_after_all(accesses.drop_last()), accesses.last())
    }
}

/// What the thread behind the access at `index` takes away from it.
pub open spec fn observed_at(accesses: Seq<SlotAccess>, index: int) -> Option<Backend> {
    observed(slot_after_all(accesses.take(index)), accesses[index])
}

/// Whether the access at `index` installs its candidate: the thread
/// behind it keeps the backend it has made, every other thread discards
/// its own.
pub open spec fn installs_at(accesses: Seq<SlotAccess>, index: int) -> bool {
    accesses[index] is Publish && slot_after_all(accesses.take(index)) is None
}

/// Once published, the slot never changes again.
proof fn lemma_published_stays(accesses: Seq<SlotAccess>, shorter: int)
    requires
        0 <= shorter <= accesses.len(),
        slot_after_all(accesses.take(shorter)) is Some,
    ensures
        slot_after_all(accesses) == slot_after_all(accesses.take(shorter)),
    decreases accesses.len(),
{
    if shorter == accesses.len() {
        assert(accesses.take(shorter) =~= accesses);
    } else {
        assert(accesses.drop_last().take(shorter) =~= accesses.take(shorter));
        lemma_published_stays(accesses.drop_last(), shorter);
    }
}

/// Backend selection is idempotent. Let any number of threads reach for
/// the backend at once, each by a read of the slot and, where the read
/// found it empty, by a publication of a candidate of its own making.
/// However these accesses interleave and whatever the candidates are, as
/// soon as one thread has come away with a backend every later access
/// comes away with that same backend. No publication comes away with
/// nothing, and at most one installs its candidate: a thread that probes
/// the host again after another has done so changes nothing.
pub proof fn law_one_backend_per_process(accesses: Seq<SlotAccess>, earlier: int, later: int)
    requires
        0 <= earlier <= later < accesses.len(),
    ensures
        observed_at(accesses, earlier) is Some ==> observed_at(accesses, later) == observed_at(
            accesses,
            earlier,
        ),
        accesses[later] is Publish ==> observed_at(accesses, later) is Some,
        installs_at(accesses, earlier) && earlier < later ==> !installs_at(accesses, later),
        installs_at(accesses, earlier) ==> observed_at(accesses, earlier) == Some(
            accesses[earlier]->Publish_0,
        ),
{
    if observed_at(accesses, earlier) is Some && earlier < later {
        let upto = accesses.take(later);
        assert(upto.take(earlier + 1) =~= accesses.take(earlier + 1));
        assert(accesses.take(earlier + 1).drop_last() =~= accesses.take(earlier));
        lemma_published_stays(upto, earlier + 1);
    }
}

} // verus!
