//! The registry of futures waiting for window messages: each future waits for
//! one message of one window, and the window procedure completes every future
//! waiting for the message it receives.

use slab::Slab;
use std::task::Waker;
use vstd::prelude::*;

use crate::message::WindowMessage;

verus! {

#[verifier::external_type_specification]
#[verifier::external_body]
#[verifier::reject_recursive_types(T)]
pub struct ExSlab<T>(Slab<T>);

#[verifier::external_type_specification]
#[verifier::external_body]
pub struct ExWaker(Waker);

/// The state of a future waiting for a message.
pub enum FutureState {
    /// Still waiting; holds the waker of the last poll, if it was polled.
    Active(Option<Waker>),
    /// The message arrived.
    Completed(WindowMessage),
}

/// What a slab of future states holds: its values by key.
pub uninterp spec fn slab_states(s: Slab<FutureState>) -> Map<usize, FutureState>;

/// `Slab::new`: an empty slab.
#[verifier::external_body]
fn slab_new() -> (fresh: Slab<FutureState>)
    ensures
        slab_states(fresh) =~= Map::empty(),
{
    Slab::new()
}

/// `Slab::insert`: stores `v` under a key that was vacant and returns the key.
#[verifier::external_body]
fn slab_insert(s: &mut Slab<FutureState>, v: FutureState) -> (k: usize)
    ensures
        !slab_states(*old(s)).dom().contains(k),
        slab_states(*final(s)) == slab_states(*old(s)).insert(k, v),
{
    s.insert(v)
}

/// `Slab::get`: the value stored under `k`, if any.
#[verifier::external_body]
fn slab_get(s: &Slab<FutureState>, k: usize) -> (r: Option<&FutureState>)
    ensures
        r is Some <==> slab_states(*s).dom().contains(k),
        r is Some ==> *r->0 == slab_states(*s)[k],
{
    s.get(k)
}

/// `Slab::get_mut` followed by a replacement of the value: stores `v` under
/// `k` when `k` is occupied and returns the value it held.
#[verifier::external_body]
fn slab_replace(s: &mut Slab<FutureState>, k: usize, v: FutureState) -> (r: Option<FutureState>)
    ensures
        slab_states(*old(s)).dom().contains(k) ==> r == Some(slab_states(*old(s))[k])
            && slab_states(*final(s)) == slab_states(*old(s)).insert(k, v),
        !slab_states(*old(s)).dom().contains(k) ==> r is None && slab_states(*final(s))
            == slab_states(*old(s)),
{
    match s.get_mut(k) {
        Some(slot) => Some(std::mem::replace(slot, v)),
        None => None,
    }
}

/// `Slab::try_remove`: removes the value stored under `k`, if any.
#[verifier::external_body]
fn slab_try_remove(s: &mut Slab<FutureState>, k: usize) -> (r: Option<FutureState>)
    ensures
        slab_states(*old(s)).dom().contains(k) ==> r == Some(slab_states(*old(s))[k])
            && slab_states(*final(s)) == slab_states(*old(s)).remove(k),
        !slab_states(*old(s)).dom().contains(k) ==> r is None && slab_states(*final(s))
            == slab_states(*old(s)),
{
    s.try_remove(k)
}

/// `Slab::iter`, keeping the keys: every occupied key once, in increasing order.
#[verifier::external_body]
fn slab_keys(s: &Slab<FutureState>) -> (r: Vec<usize>)
    ensures
        r@.to_set() == slab_states(*s).dom(),
        forall|i: int, j: int| 0 <= i < j < r@.len() ==> r@[i] < r@[j],
{
    s.iter().map(|(k, _)| k).collect()
}

/// `Slab::is_empty`: whether no key is occupied.
#[verifier::external_body]
fn slab_is_empty(s: &Slab<FutureState>) -> (r: bool)
    ensures
        r == (slab_states(*s).dom() == Set::<usize>::empty()),
{
    s.is_empty()
}

/// The futures waiting for one message of one window.
struct RegistryEntry {
    handle: usize,
    msg: u32,
    futures: Slab<FutureState>,
}

/// The futures waiting for window messages, grouped by window and message.
pub struct MessageRegistry {
    entries: Vec<RegistryEntry>,
}

/// The index of the first position of `keys` that holds `k`.
pub open spec fn index_of(keys: Seq<(usize, u32)>, k: (usize, u32)) -> int {
    choose|i: int| 0 <= i < keys.len() && keys[i] == k
}

/// A future that waits for the message `msg` of the window `handle`.
#[derive(Debug)]
pub struct MsgFuture {
    id: usize,
    handle: usize,
    msg: u32,
}

impl MsgFuture {
    /// The key of the future among those waiting for the same message.
    pub closed spec fn spec_id(&self) -> usize {
        self.id
    }

    /// The window and the message the future waits for.
    pub closed spec fn spec_key(&self) -> (usize, u32) {
        (self.handle, self.msg)
    }
}

/// The result of a poll.
pub enum MsgPoll {
    Ready(WindowMessage),
    Pending,
}

/// A dispatch of `msg`: every future that waited for it holds `msg` now and
/// no future was added or removed.
pub open spec fn all_completed(
    before: Map<usize, FutureState>,
    after: Map<usize, FutureState>,
    msg: WindowMessage,
) -> bool {
    &&& after.dom() == before.dom()
    &&& forall|id: usize| #[trigger] after.dom().contains(id) ==> after[id] == FutureState::Completed(msg)
}

/// The wakers a dispatch wakes: each `(id, waker)` pair is a future that was
/// polled and waited, and every such future is in the list once.
pub open spec fn woken_exactly(before: Map<usize, FutureState>, woken: Seq<(usize, Waker)>) -> bool {
    &&& woken.map_values(|p: (usize, Waker)| p.0).no_duplicates()
    &&& forall|i: int| 0 <= i < woken.len() ==> before.dom().contains(#[trigger] woken[i].0)
        && before[woken[i].0] == FutureState::Active(Some(woken[i].1))
    &&& forall|id: usize| #[trigger] before.dom().contains(id) && before[id] is Active
        && before[id]->Active_0 is Some ==> exists|i: int| 0 <= i < woken.len() && #[trigger] woken[i].0 == id
}

impl MessageRegistry {
    /// The windows and messages that have an entry, in entry order.
    pub closed spec fn keys(&self) -> Seq<(usize, u32)> {
        self.entries@.map_values(|e: RegistryEntry| (e.handle, e.msg))
    }

    /// The registry is well formed: each window and message has one entry at most.
    pub closed spec fn wf(&self) -> bool {
        forall|i: int, j: int|
            0 <= i < j < self.entries@.len() ==> #[trigger] self.keys()[i] != #[trigger] self.keys()[j]
    }

    /// The futures waiting for the message `k.1` of the window `k.0`, by key.
    pub closed spec fn states(&self, k: (usize, u32)) -> Map<usize, FutureState> {
        if self.keys().contains(k) {
            slab_states(self.entries@[index_of(self.keys(), k)].futures)
        } else {
            Map::empty()
        }
    }

    /// An empty registry.
    pub fn new() -> (r: Self)
        ensures
            r.wf(),
            forall|k: (usize, u32)| #[trigger] r.states(k) == Map::<usize, FutureState>::empty(),
    {
        let r = MessageRegistry { entries: Vec::new() };
        assert forall|k: (usize, u32)| #[trigger] r.states(k) == Map::<usize, FutureState>::empty() by {
            assert(!r.keys().contains(k));
        }
        r
    }

    proof fn lemma_index(&self, i: int)
        requires
            self.wf(),
            0 <= i < self.entries@.len(),
        ensures
            self.keys().contains(self.keys()[i]),
            index_of(self.keys(), self.keys()[i]) == i,
            self.states(self.keys()[i]) == slab_states(self.entries@[i].futures),
    {
        let k = self.keys()[i];
        assert(self.keys()[i] == k);
        let j = index_of(self.keys(), k);
        assert(0 <= j < self.keys().len() && self.keys()[j] == k);
        if j != i {
            if i < j {
                assert(self.keys()[i] != self.keys()[j]);
            } else {
                assert(self.keys()[j] != self.keys()[i]);
            }
        }
    }

    /// The position of the entry of `(handle, msg)`, if there is one.
    fn find(&self, handle: usize, msg: u32) -> (r: Option<usize>)
        requires
            self.wf(),
        ensures
            r is Some <==> self.keys().contains((handle, msg)),
            r is Some ==> r->0 < self.entries@.len() && self.keys()[r->0 as int] == (handle, msg)
                && self.states((handle, msg)) == slab_states(self.entries@[r->0 as int].futures),
    {
        let mut i: usize = 0;
        while i < self.entries.len()
            invariant
                i <= self.entries@.len(),
                self.wf(),
                forall|j: int| 0 <= j < i ==> self.keys()[j] != (handle, msg),
            decreases self.entries@.len() - i,
        {
            let e = &self.entries[i];
            if e.handle == handle && e.msg == msg {
                proof {
                    assert(self.keys()[i as int] == (handle, msg));
                    self.lemma_index(i as int);
                }
                return Some(i);
            }
            assert(self.keys()[i as int] == (e.handle, e.msg));
            i = i + 1;
        }
        assert forall|j: int| 0 <= j < self.keys().len() implies self.keys()[j] != (handle, msg) by {}
        None
    }

    /// After a change of the futures of entry `i` alone, the futures of every
    /// other window and message are unchanged.
    proof fn lemma_frame(old_r: &Self, new_r: &Self, i: int)
        requires
            old_r.wf(),
            0 <= i < old_r.entries@.len(),
            new_r.entries@.len() == old_r.entries@.len(),
            forall|j: int| 0 <= j < old_r.entries@.len() ==> (#[trigger] new_r.entries@[j]).handle
                == old_r.entries@[j].handle && new_r.entries@[j].msg == old_r.entries@[j].msg,
            forall|j: int| 0 <= j < old_r.entries@.len() && j != i ==> #[trigger] new_r.entries@[j]
                == old_r.entries@[j],
        ensures
            new_r.wf(),
            new_r.keys() == old_r.keys(),
            new_r.states(old_r.keys()[i]) == slab_states(new_r.entries@[i].futures),
            forall|k: (usize, u32)| k != old_r.keys()[i] ==> #[trigger] new_r.states(k) == old_r.states(k),
    {
        assert(new_r.keys() =~= old_r.keys());
        new_r.lemma_index(i);
        assert forall|k: (usize, u32)| k != old_r.keys()[i] implies #[trigger] new_r.states(k)
            == old_r.states(k) by {
            if old_r.keys().contains(k) {
                let j = index_of(old_r.keys(), k);
                assert(j != i);
            }
        }
    }

    /// Registers a future waiting for the message `msg` of the window `handle`.
    pub fn register_message(&mut self, handle: usize, msg: u32) -> (f: MsgFuture)
        requires
            old(self).wf(),
        ensures
            final(self).wf(),
            f.spec_key() == (handle, msg),
            !old(self).states((handle, msg)).dom().contains(f.spec_id()),
            final(self).states((handle, msg)) == old(self).states((handle, msg)).insert(
                f.spec_id(),
                FutureState::Active(None),
            ),
            forall|k: (usize, u32)| k != (handle, msg) ==> #[trigger] final(self).states(k) == old(
                self,
            ).states(k),
    {
        let i = match self.find(handle, msg) {
            Some(i) => i,
            None => {
                let ghost before = *self;
                self.entries.push(RegistryEntry { handle, msg, futures: slab_new() });
                proof {
                    let n = before.entries@.len();
                    assert(self.keys() =~= before.keys().push((handle, msg)));
                    assert forall|a: int, b: int|
                        0 <= a < b < self.entries@.len() implies #[trigger] self.keys()[a]
                        != #[trigger] self.keys()[b] by {
                        if b == n {
                            assert(before.keys()[a] == self.keys()[a]);
                            assert(before.keys().contains(before.keys()[a]));
                        } else {
                            assert(before.keys()[a] != before.keys()[b]);
                        }
                    }
                    self.lemma_index(n as int);
                    assert forall|k: (usize, u32)| k != (handle, msg) implies #[trigger] self.states(k)
                        == before.states(k) by {
                        if before.keys().contains(k) {
                            let j = index_of(before.keys(), k);
                            before.lemma_index(j);
                            assert(self.keys()[j] == k);
                            self.lemma_index(j);
                        } else {
                            if self.keys().contains(k) {
                                let j = index_of(self.keys(), k);
                                assert(j < n);
                                assert(before.keys()[j] == k);
                            }
                        }
                    }
                }
                self.entries.len() - 1
            },
        };
        let ghost mid = *self;
        let mut entry = self.entries.remove(i);
        let id = slab_insert(&mut entry.futures, FutureState::Active(None));
        self.entries.insert(i, entry);
        proof {
            MessageRegistry::lemma_frame(&mid, self, i as int);
        }
        MsgFuture { id, handle, msg }
    }

    /// A poll of the future `id` of `(handle, msg)`: the message if it arrived;
    /// otherwise the future keeps `waker` to be woken when it arrives.
    pub fn replace_waker(&mut self, id: usize, handle: usize, msg: u32, waker: Waker) -> (r: Option<
        WindowMessage,
    >)
        requires
            old(self).wf(),
        ensures
            final(self).wf(),
            forall|k: (usize, u32)| k != (handle, msg) ==> #[trigger] final(self).states(k) == old(
                self,
            ).states(k),
            match old(self).states((handle, msg)).get(id) {
                Some(FutureState::Completed(m)) => r == Some(m) && final(self).states((handle, msg))
                    == old(self).states((handle, msg)),
                Some(FutureState::Active(_)) => r is None && final(self).states((handle, msg)) == old(
                    self,
                ).states((handle, msg)).insert(id, FutureState::Active(Some(waker))),
                None => r is None && final(self).states((handle, msg)) == old(self).states(
                    (handle, msg),
                ),
            },
    {
        match self.find(handle, msg) {
            None => None,
            Some(i) => {
                let completed = match slab_get(&self.entries[i].futures, id) {
                    Some(FutureState::Completed(m)) => Some(*m),
                    Some(FutureState::Active(_)) => None,
                    None => return None,
                };
                match completed {
                    Some(m) => Some(m),
                    None => {
                        let ghost mid = *self;
                        let mut entry = self.entries.remove(i);
                        let _old = slab_replace(&mut entry.futures, id, FutureState::Active(Some(waker)));
                        self.entries.insert(i, entry);
                        proof {
                            MessageRegistry::lemma_frame(&mid, self, i as int);
                        }
                        None
                    },
                }
            },
        }
    }

    /// Drops the future `id` of `(handle, msg)`.
    pub fn deregister(&mut self, id: usize, handle: usize, msg: u32)
        requires
            old(self).wf(),
        ensures
            final(self).wf(),
            final(self).states((handle, msg)) == old(self).states((handle, msg)).remove(id),
            forall|k: (usize, u32)| k != (handle, msg) ==> #[trigger] final(self).states(k) == old(
                self,
            ).states(k),
    {
        match self.find(handle, msg) {
            None => {
                assert(old(self).states((handle, msg)) =~= old(self).states((handle, msg)).remove(id));
            },
            Some(i) => {
                let ghost mid = *self;
                let mut entry = self.entries.remove(i);
                let _removed = slab_try_remove(&mut entry.futures, id);
                self.entries.insert(i, entry);
                proof {
                    MessageRegistry::lemma_frame(&mid, self, i as int);
                    assert(slab_states(mid.entries@[i as int].futures).remove(id) =~= slab_states(
                        mid.entries@[i as int].futures,
                    ).remove(id));
                    if !slab_states(mid.entries@[i as int].futures).dom().contains(id) {
                        assert(slab_states(mid.entries@[i as int].futures) =~= slab_states(
                            mid.entries@[i as int].futures,
                        ).remove(id));
                    }
                }
            },
        }
    }

    /// The window procedure received `full_msg` as the message `message` of
    /// the window `handle`: every future waiting for it completes with it.
    /// Returns whether some future waited, and the wakers to wake.
    pub fn set_current_msg(&mut self, handle: usize, message: u32, full_msg: WindowMessage) -> (r: (
        bool,
        Vec<(usize, Waker)>,
    ))
        requires
            old(self).wf(),
        ensures
            final(self).wf(),
            r.0 == (old(self).states((handle, message)).dom() != Set::<usize>::empty()),
            all_completed(
                old(self).states((handle, message)),
                final(self).states((handle, message)),
                full_msg,
            ),
            woken_exactly(old(self).states((handle, message)), r.1@),
            forall|k: (usize, u32)| k != (handle, message) ==> #[trigger] final(self).states(k)
                == old(self).states(k),
    {
        let ghost key = (handle, message);
        match self.find(handle, message) {
            None => {
                let woken: Vec<(usize, Waker)> = Vec::new();
                proof {
                    assert(old(self).states(key) =~= Map::<usize, FutureState>::empty());
                    assert(old(self).states(key).dom() =~= Set::<usize>::empty());
                }
                (false, woken)
            },
            Some(i) => {
                let ghost mid = *self;
                let mut entry = self.entries.remove(i);
                let dealt = !slab_is_empty(&entry.futures);
                let woken = complete_all(&mut entry.futures, full_msg);
                self.entries.insert(i, entry);
                proof {
                    MessageRegistry::lemma_frame(&mid, self, i as int);
                }
                (dealt, woken)
            },
        }
    }
}

/// Completes every future of `futures` with `full_msg` and returns the wakers
/// of those that were polled while they waited.
fn complete_all(futures: &mut Slab<FutureState>, full_msg: WindowMessage) -> (woken: Vec<(usize, Waker)>)
    ensures
        all_completed(slab_states(*old(futures)), slab_states(*final(futures)), full_msg),
        woken_exactly(slab_states(*old(futures)), woken@),
{
    let ghost before = slab_states(*futures);
    let keys = slab_keys(futures);
    let mut woken: Vec<(usize, Waker)> = Vec::new();
    let mut j: usize = 0;
    while j < keys.len()
        invariant
            0 <= j <= keys@.len(),
            keys@.to_set() == before.dom(),
            forall|a: int, b: int| 0 <= a < b < keys@.len() ==> keys@[a] < keys@[b],
            slab_states(*futures).dom() == before.dom(),
            forall|a: int| 0 <= a < j ==> #[trigger] slab_states(*futures)[keys@[a]]
                == FutureState::Completed(full_msg),
            forall|a: int| j <= a < keys@.len() ==> #[trigger] slab_states(*futures)[keys@[a]]
                == before[keys@[a]],
            forall|w: int| 0 <= w < woken@.len() ==> before.dom().contains(#[trigger] woken@[w].0)
                && before[woken@[w].0] == FutureState::Active(Some(woken@[w].1)),
            forall|a: int, b: int| 0 <= a < b < woken@.len() ==> #[trigger] woken@[a].0 < #[trigger] woken@[b].0,
            forall|w: int| 0 <= w < woken@.len() && j < keys@.len() ==> #[trigger] woken@[w].0 < keys@[j as int],
            forall|a: int| 0 <= a < j && before[keys@[a]] is Active && (#[trigger] before[keys@[a]])->Active_0
                is Some ==> exists|w: int| 0 <= w < woken@.len() && #[trigger] woken@[w].0 == keys@[a],
        decreases keys@.len() - j,
    {
        let k = keys[j];
        assert(keys@.to_set().contains(k));
        let prev = slab_replace(futures, k, FutureState::Completed(full_msg));
        proof {
            assert forall|a: int| 0 <= a < keys@.len() && a != j implies keys@[a] != k by {
                if a < j {
                    assert(keys@[a] < keys@[j as int]);
                } else {
                    assert(keys@[j as int] < keys@[a]);
                }
            }
        }
        match prev {
            Some(FutureState::Active(Some(w))) => {
                let ghost wl = woken@;
                woken.push((k, w));
                proof {
                    assert forall|a: int| 0 <= a < j + 1 && before[keys@[a]] is Active
                        && (#[trigger] before[keys@[a]])->Active_0 is Some implies exists|x: int|
                        0 <= x < woken@.len() && #[trigger] woken@[x].0 == keys@[a] by {
                        if a == j {
                            assert(woken@[wl.len() as int].0 == keys@[a]);
                        } else {
                            let x = choose|x: int| 0 <= x < wl.len() && #[trigger] wl[x].0 == keys@[a];
                            assert(woken@[x].0 == keys@[a]);
                        }
                    }
                    if j + 1 < keys@.len() {
                        assert(keys@[j as int] < keys@[j + 1]);
                    }
                }
            },
            _ => {
                proof {
                    if j + 1 < keys@.len() {
                        assert(keys@[j as int] < keys@[j + 1]);
                    }
                }
            },
        }
        j = j + 1;
    }
    proof {
        let after = slab_states(*futures);
        assert forall|id: usize| #[trigger] after.dom().contains(id) implies after[id]
            == FutureState::Completed(full_msg) by {
            assert(keys@.to_set().contains(id));
            let a = choose|a: int| 0 <= a < keys@.len() && keys@[a] == id;
            assert(after[keys@[a]] == FutureState::Completed(full_msg));
        }
        let ids = woken@.map_values(|p: (usize, Waker)| p.0);
        assert(ids.no_duplicates()) by {
            assert forall|a: int, b: int| 0 <= a < ids.len() && 0 <= b < ids.len() && a != b
                implies ids[a] != ids[b] by {
                if a < b {
                    assert(woken@[a].0 < woken@[b].0);
                } else {
                    assert(woken@[b].0 < woken@[a].0);
                }
            }
        }
        assert forall|id: usize| #[trigger] before.dom().contains(id) && before[id] is Active
            && before[id]->Active_0 is Some implies exists|x: int| 0 <= x < woken@.len()
            && #[trigger] woken@[x].0 == id by {
            assert(keys@.to_set().contains(id));
            let a = choose|a: int| 0 <= a < keys@.len() && keys@[a] == id;
            assert(before[keys@[a]] is Active);
        }
    }
    woken
}

impl MsgFuture {
    /// Polls the future: ready with the message once it arrived, pending
    /// otherwise, `waker` being kept to be woken when it arrives.
    pub fn poll(&self, registry: &mut MessageRegistry, waker: Waker) -> (r: MsgPoll)
        requires
            old(registry).wf(),
        ensures
            final(registry).wf(),
            forall|k: (usize, u32)| k != self.spec_key() ==> #[trigger] final(registry).states(k)
                == old(registry).states(k),
            match old(registry).states(self.spec_key()).get(self.spec_id()) {
                Some(FutureState::Completed(m)) => r == MsgPoll::Ready(m) && final(registry).states(
                    self.spec_key(),
                ) == old(registry).states(self.spec_key()),
                Some(FutureState::Active(_)) => r is Pending && final(registry).states(self.spec_key())
                    == old(registry).states(self.spec_key()).insert(
                    self.spec_id(),
                    FutureState::Active(Some(waker)),
                ),
                None => r is Pending && final(registry).states(self.spec_key()) == old(
                    registry,
                ).states(self.spec_key()),
            },
    {
        match registry.replace_waker(self.id, self.handle, self.msg, waker) {
            Some(m) => MsgPoll::Ready(m),
            None => MsgPoll::Pending,
        }
    }

    /// Drops the future: it stops waiting.
    pub fn release(self, registry: &mut MessageRegistry)
        requires
            old(registry).wf(),
        ensures
            final(registry).wf(),
            final(registry).states(self.spec_key()) == old(registry).states(self.spec_key()).remove(
                self.spec_id(),
            ),
            forall|k: (usize, u32)| k != self.spec_key() ==> #[trigger] final(registry).states(k)
                == old(registry).states(k),
    {
        registry.deregister(self.id, self.handle, self.msg)
    }
}

/// A future registered for a message before the message arrives holds that
/// message once it arrives, so its next poll is ready with it.
pub proof fn lemma_registered_future_receives_message(
    before: Map<usize, FutureState>,
    id: usize,
    registered: Map<usize, FutureState>,
    after: Map<usize, FutureState>,
    msg: WindowMessage,
)
    requires
        registered == before.insert(id, FutureState::Active(None)),
        all_completed(registered, after, msg),
    ensures
        after.get(id) == Some(FutureState::Completed(msg)),
{
    assert(registered.dom().contains(id));
    assert(after.dom().contains(id));
}

/// Every dispatch in a row of dispatches keeps the futures that waited.
proof fn lemma_dispatches_keep_future(
    states: Seq<Map<usize, FutureState>>,
    msgs: Seq<WindowMessage>,
    id: usize,
    j: int,
)
    requires
        states.len() == msgs.len() + 1,
        states[0].dom().contains(id),
        forall|i: int|
            0 <= i < msgs.len() ==> all_completed(states[i], states[i + 1], #[trigger] msgs[i]),
        0 <= j <= msgs.len(),
    ensures
        states[j].dom().contains(id),
    decreases j,
{
    if j > 0 {
        lemma_dispatches_keep_future(states, msgs, id, j - 1);
        assert(all_completed(states[j - 1], states[j], msgs[j - 1]));
    }
}

/// However many times its message arrives before a waiting future is polled,
/// the future holds the last of them (so its poll is ready with it); when
/// none arrived, nothing changed and its poll is pending.
pub proof fn lemma_latest_message_wins(
    states: Seq<Map<usize, FutureState>>,
    msgs: Seq<WindowMessage>,
    id: usize,
)
    requires
        states.len() == msgs.len() + 1,
        states[0].dom().contains(id),
        forall|i: int|
            0 <= i < msgs.len() ==> all_completed(states[i], states[i + 1], #[trigger] msgs[i]),
    ensures
        msgs.len() == 0 ==> states.last() == states[0],
        msgs.len() > 0 ==> states.last().get(id) == Some(FutureState::Completed(msgs.last())),
{
    if msgs.len() > 0 {
        let k = msgs.len() - 1;
        lemma_dispatches_keep_future(states, msgs, id, k);
        assert(all_completed(states[k], states[k + 1], msgs[k]));
        assert(states[k + 1].dom().contains(id));
    }
}

/// A future that was polled while it waited is woken, with the waker of that
/// poll, when its message arrives.
pub proof fn lemma_polled_future_is_woken(
    waiting: Map<usize, FutureState>,
    id: usize,
    waker: Waker,
    woken: Seq<(usize, Waker)>,
)
    requires
        waiting.dom().contains(id),
        waiting[id] == FutureState::Active(Some(waker)),
        woken_exactly(waiting, woken),
    ensures
        exists|i: int| 0 <= i < woken.len() && woken[i] == (id, waker),
{
    assert(waiting[id] is Active && waiting[id]->Active_0 is Some);
    let i = choose|i: int| 0 <= i < woken.len() && #[trigger] woken[i].0 == id;
    assert(woken[i].0 == id && waiting[woken[i].0] == FutureState::Active(Some(woken[i].1)));
    assert(woken[i] == (id, waker));
}

/// A future that was dropped is no longer completed by its message.
pub proof fn lemma_released_future_is_not_completed(
    registered: Map<usize, FutureState>,
    id: usize,
    released: Map<usize, FutureState>,
    after: Map<usize, FutureState>,
    msg: WindowMessage,
)
    requires
        released == registered.remove(id),
        all_completed(released, after, msg),
    ensures
        after.get(id) is None,
{
}

} // verus!
