use slab::Slab;
use std::sync::atomic::{AtomicU8, Ordering};
use std::sync::Arc;
use std::task::Waker;
use vstd::prelude::*;
use vstd::rwlock::{RwLock, RwLockPredicate};

verus! {

/// The task waker of the standard library, carried through opaquely.
#[verifier::external_type_specification]
#[verifier::external_body]
pub struct ExWaker(Waker);

/// The slab of the `slab` crate, carried through opaquely; what it holds is
/// named by [`slab_entries`].
#[verifier::external_type_specification]
#[verifier::external_body]
#[verifier::reject_recursive_types(T)]
pub struct ExSlab<T>(Slab<T>);

/// Calls `std::task::Waker::wake`, which consumes the waker and schedules its
/// task. Nothing is claimed of what the wake does.
#[verifier::external_body]
fn wake_waker(waker: Waker) {
    waker.wake()
}

/// State of an [`AtomicWaker`] when neither side holds its waker slot.
pub const IDLE: u8 = 0;

/// Bit set by the task side while it installs a new waker.
pub const UPDATING: u8 = 1;

/// Bit set by the reactor side when it asks for a wake.
pub const WAKING: u8 = 2;

/// Whether the reactor, having seen `prev` before setting the waking bit,
/// takes the slot and wakes the waker itself. Otherwise the waking bit stays
/// behind for the side that holds the slot.
pub open spec fn waker_claims_slot(prev: u8) -> bool {
    prev == IDLE
}

/// The slot of an [`AtomicWaker`] may hold any waker or none.
pub struct AnyWaker;

impl RwLockPredicate<Option<Waker>> for AnyWaker {
    open spec fn inv(self, v: Option<Waker>) -> bool {
        true
    }
}

/// A waker slot shared between the task that registers its waker and the
/// reactor that wakes it. The state byte decides which side may touch the
/// slot; a wake that arrives while the task side is installing a new waker is
/// handed over to that side, which then wakes the new waker itself.
pub struct AtomicWaker {
    state: AtomicU8,
    waker: RwLock<Option<Waker>, AnyWaker>,
}

impl AtomicWaker {
    /// An idle slot without a waker.
    pub fn new() -> (r: Self) {
        AtomicWaker { state: AtomicU8::new(IDLE), waker: RwLock::new(None, Ghost(AnyWaker)) }
    }

    /// An idle slot holding `waker`.
    pub fn new_with_waker(waker: Waker) -> (r: Self) {
        AtomicWaker {
            state: AtomicU8::new(IDLE),
            waker: RwLock::new(Some(waker), Ghost(AnyWaker)),
        }
    }

    fn put(&self, waker: Option<Waker>) {
        let (_previous, handle) = self.waker.acquire_write();
        handle.release_write(waker);
    }

    fn take(&self) -> Option<Waker> {
        let (current, handle) = self.waker.acquire_write();
        handle.release_write(None);
        current
    }

    /// One attempt to install `waker`. When the slot is busy (a wake is being
    /// delivered) the waker is handed back unchanged, to be offered again.
    /// When a wake arrives while the waker is being installed, the new waker
    /// is woken here before the slot is released.
    pub fn try_update(&self, waker: Waker) -> (r: Result<(), Waker>)
        ensures
            r matches Err(w) ==> w == waker,
    {
        match self.state.compare_exchange(IDLE, UPDATING, Ordering::SeqCst, Ordering::SeqCst) {
            Ok(_) => {
                self.put(Some(waker));
                match self.state.compare_exchange(
                    UPDATING,
                    IDLE,
                    Ordering::SeqCst,
                    Ordering::SeqCst,
                ) {
                    Ok(_) => Ok(()),
                    Err(_) => {
                        // A wake was asked for meanwhile: deliver it to the new waker.
                        if let Some(w) = self.take() {
                            wake_waker(w);
                        }
                        self.state.store(IDLE, Ordering::SeqCst);
                        Ok(())
                    },
                }
            },
            Err(_) => Err(waker),
        }
    }

    /// Asks for a wake. If the slot was idle, the waker it holds (if any) is
    /// taken and woken; if the task side is installing a waker, the request is
    /// left to it.
    pub fn wake(&self) {
        let prev = self.state.fetch_or(WAKING, Ordering::SeqCst);
        if prev == IDLE {
            if let Some(w) = self.take() {
                wake_waker(w);
            }
            self.state.store(IDLE, Ordering::SeqCst);
        }
    }
}

/// The contents of a slab of waker slots: the slot stored under each key.
pub uninterp spec fn slab_entries(slab: Slab<Arc<AtomicWaker>>) -> Map<usize, Arc<AtomicWaker>>;

/// The key the slab hands out on its next insert: the most recently freed key
/// still vacant, or the first slot past all slots it has used.
pub uninterp spec fn slab_next(slab: Slab<Arc<AtomicWaker>>) -> usize;

/// How many slots the slab has used so far, occupied or freed.
pub uninterp spec fn slab_slots(slab: Slab<Arc<AtomicWaker>>) -> nat;

/// What always holds of a slab: every key lies below the slots used, and the
/// next key is either past them or a vacant slot.
pub open spec fn slab_shape(slab: Slab<Arc<AtomicWaker>>) -> bool {
    &&& slab_next(slab) <= slab_slots(slab)
    &&& slab_next(slab) < slab_slots(slab) ==> !slab_entries(slab).contains_key(slab_next(slab))
    &&& forall|k: usize| #[trigger] slab_entries(slab).contains_key(k) ==> k < slab_slots(slab)
}

/// Calls `slab::Slab::new`: an empty slab that has used no slot.
#[verifier::external_body]
fn slab_new() -> (r: Slab<Arc<AtomicWaker>>)
    ensures
        slab_entries(r).is_empty(),
        slab_next(r) == 0,
        slab_slots(r) == 0,
{
    Slab::new()
}

/// Calls `slab::Slab::insert`: `value` is stored under the slab's next key,
/// which was vacant, and that key is returned; the other entries stay. A key
/// past the used slots opens a new slot and the next key follows it; a freed
/// key is reused and the next key is another vacant one. The panic when the
/// slab's storage cannot grow is left open.
#[verifier::external_body]
fn slab_insert(slab: &mut Slab<Arc<AtomicWaker>>, value: Arc<AtomicWaker>) -> (key: usize)
    ensures
        key == slab_next(*old(slab)),
        key <= slab_slots(*old(slab)),
        !slab_entries(*old(slab)).contains_key(key),
        slab_entries(*final(slab)) == slab_entries(*old(slab)).insert(key, value),
        key == slab_slots(*old(slab)) ==> slab_slots(*final(slab)) == key + 1 && slab_next(
            *final(slab),
        ) == key + 1,
        key < slab_slots(*old(slab)) ==> slab_slots(*final(slab)) == slab_slots(*old(slab)),
        slab_shape(*final(slab)),
{
    slab.insert(value)
}

/// Calls `slab::Slab::get`: the entry under `key`, if any.
#[verifier::external_body]
fn slab_get(slab: &Slab<Arc<AtomicWaker>>, key: usize) -> (r: Option<&Arc<AtomicWaker>>)
    ensures
        match r {
            Some(v) => slab_entries(*slab).contains_key(key) && *v == slab_entries(*slab)[key],
            None => !slab_entries(*slab).contains_key(key),
        },
{
    slab.get(key)
}

/// Calls `slab::Slab::contains`: whether `key` holds an entry.
#[verifier::external_body]
fn slab_contains(slab: &Slab<Arc<AtomicWaker>>, key: usize) -> (r: bool)
    ensures
        r == slab_entries(*slab).contains_key(key),
{
    slab.contains(key)
}

/// Calls `slab::Slab::remove`, which panics on a vacant key: the entry under
/// `key` is taken out and returned; the other entries stay, and the freed key
/// is the next one handed out.
#[verifier::external_body]
fn slab_remove(slab: &mut Slab<Arc<AtomicWaker>>, key: usize) -> (r: Arc<AtomicWaker>)
    requires
        slab_entries(*old(slab)).contains_key(key),
    ensures
        r == slab_entries(*old(slab))[key],
        slab_entries(*final(slab)) == slab_entries(*old(slab)).remove(key),
        slab_next(*final(slab)) == key,
        slab_slots(*final(slab)) == slab_slots(*old(slab)),
        slab_shape(*final(slab)),
{
    slab.remove(key)
}

/// Removing the key that an insert returned leaves the registry as it was
/// before the insert.
pub proof fn lemma_remove_undoes_insert(before: Set<usize>, key: usize)
    requires
        !before.contains(key),
    ensures
        before.insert(key).remove(key) == before,
{
    assert(before.insert(key).remove(key) =~= before);
}

/// Registry of the waker slots of all registered sockets, keyed by the
/// socket's registry key.
pub struct Torque {
    data: Slab<Arc<AtomicWaker>>,
}

impl View for Torque {
    type V = Set<usize>;

    /// The keys that hold a waker slot.
    closed spec fn view(&self) -> Set<usize> {
        slab_entries(self.data).dom()
    }
}

impl Torque {
    /// The key the next registration gets.
    pub closed spec fn next_key(&self) -> usize {
        slab_next(self.data)
    }

    /// How many keys have been handed out so far, live or freed.
    pub closed spec fn slots(&self) -> nat {
        slab_slots(self.data)
    }

    /// Every key lies below the slots used, and the next key is either past
    /// them or a freed one.
    pub closed spec fn wf(&self) -> bool {
        slab_shape(self.data)
    }

    /// An empty registry, whose first key is 0.
    pub fn new() -> (r: Self)
        ensures
            r@ == Set::<usize>::empty(),
            r.next_key() == 0,
            r.slots() == 0,
            r.wf(),
    {
        Torque { data: slab_new() }
    }

    /// Registers a new slot holding `waker` and returns its key.
    pub fn insert(&mut self, waker: Waker) -> (key: usize)
        ensures
            key == old(self).next_key(),
            key <= old(self).slots(),
            !old(self)@.contains(key),
            final(self)@ == old(self)@.insert(key),
            key == old(self).slots() ==> final(self).slots() == key + 1 && final(self).next_key()
                == key + 1,
            key < old(self).slots() ==> final(self).slots() == old(self).slots(),
            final(self).wf(),
    {
        let cell = Arc::new(AtomicWaker::new_with_waker(waker));
        slab_insert(&mut self.data, cell)
    }

    /// Registers a new empty slot and returns its key.
    pub fn insert_without_waker(&mut self) -> (key: usize)
        ensures
            key == old(self).next_key(),
            key <= old(self).slots(),
            !old(self)@.contains(key),
            final(self)@ == old(self)@.insert(key),
            key == old(self).slots() ==> final(self).slots() == key + 1 && final(self).next_key()
                == key + 1,
            key < old(self).slots() ==> final(self).slots() == old(self).slots(),
            final(self).wf(),
    {
        let cell = Arc::new(AtomicWaker::new());
        slab_insert(&mut self.data, cell)
    }

    /// Whether `key` holds a slot.
    pub fn contains(&self, key: usize) -> (r: bool)
        ensures
            r == self@.contains(key),
    {
        slab_contains(&self.data, key)
    }

    /// One attempt to install `waker` in the slot under `index`: `Ok(false)`
    /// when there is no such slot, `Ok(true)` once it is installed, and the
    /// waker handed back when the slot is busy delivering a wake.
    pub fn try_update(&self, index: usize, waker: Waker) -> (r: Result<bool, Waker>)
        ensures
            (r == Ok::<bool, Waker>(false)) <==> !self@.contains(index),
            r matches Err(w) ==> w == waker && self@.contains(index),
    {
        match slab_get(&self.data, index) {
            Some(cell) => match cell.try_update(waker) {
                Ok(()) => Ok(true),
                Err(w) => Err(w),
            },
            None => Ok(false),
        }
    }

    /// Asks the slot under `index` for a wake; returns whether there was one.
    pub fn wake(&self, index: usize) -> (r: bool)
        ensures
            r == self@.contains(index),
    {
        match slab_get(&self.data, index) {
            Some(cell) => {
                cell.wake();
                true
            },
            None => false,
        }
    }

    /// Drops the slot under `entry`.
    pub fn remove(&mut self, entry: usize)
        requires
            old(self)@.contains(entry),
        ensures
            final(self)@ == old(self)@.remove(entry),
            final(self).next_key() == entry,
            final(self).slots() == old(self).slots(),
            final(self).wf(),
    {
        let _ = slab_remove(&mut self.data, entry);
    }
}

} // verus!

verus! {

/// The registry key that an event for `token` wakes, given the keys `keys`
/// registered: the socket key behind the token, when it is registered.
pub open spec fn dispatch_target(parallelism: nat, keys: Set<usize>, token: nat) -> Option<usize> {
    match crate::layout::spec_key_of(parallelism, token) {
        Some(key) => if key <= usize::MAX && keys.contains(key as usize) {
            Some(key as usize)
        } else {
            None
        },
        None => None,
    }
}

/// The reactor's handling of a readiness event for `token`: a socket token
/// wakes the slot registered under its key; the tokens of the worker and
/// reactor threads wake nothing here. Returns whether a slot was asked to wake.
pub fn dispatch_event(layout: &crate::layout::TokenLayout, torque: &Torque, token: usize) -> (r: bool)
    ensures
        r == dispatch_target(layout@, torque@, token as nat) is Some,
{
    match layout.key_of(token) {
        Some(key) => torque.wake(key),
        None => false,
    }
}

/// The reactor's dispatch law: an event for the token of a registered socket
/// reaches that socket's slot; an event for a thread's token, or for the token
/// of a key no longer registered, reaches no slot.
pub proof fn lemma_dispatch(parallelism: nat, keys: Set<usize>, key: usize, token: nat)
    ensures
        keys.contains(key) ==> dispatch_target(
            parallelism,
            keys,
            crate::layout::spec_source_token(parallelism, key as nat),
        ) == Some(key),
        !keys.contains(key) ==> dispatch_target(
            parallelism,
            keys,
            crate::layout::spec_source_token(parallelism, key as nat),
        ) is None,
        token <= parallelism ==> dispatch_target(parallelism, keys, token) is None,
{
    crate::layout::lemma_key_of_source(parallelism, key as nat);
}

/// The token law of registered sockets: every registered key's token lies
/// above all thread tokens and leads back to that key, and distinct registered
/// keys have distinct tokens.
pub proof fn lemma_registered_tokens(parallelism: nat, keys: Set<usize>)
    ensures
        forall|k: usize|
            #[trigger] keys.contains(k) ==> crate::layout::spec_source_token(parallelism, k as nat)
                > parallelism && crate::layout::spec_key_of(
                parallelism,
                crate::layout::spec_source_token(parallelism, k as nat),
            ) == Some(k as nat),
        forall|k1: usize, k2: usize|
            #![trigger keys.contains(k1), keys.contains(k2)]
            keys.contains(k1) && keys.contains(k2) && k1 != k2 ==> crate::layout::spec_source_token(
                parallelism,
                k1 as nat,
            ) != crate::layout::spec_source_token(parallelism, k2 as nat),
{
}

} // verus!
