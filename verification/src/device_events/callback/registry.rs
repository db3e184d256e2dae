//! An ordered list of callbacks, each subscribed until its guard is given up.
//!
//! A registry never removes a released callback at once: it marks it, and
//! drops the marked entries at the start of the next dispatch pass. Every
//! entry carries a number that no other entry of the registry ever had, by
//! which a guard finds its callback again however the list has shifted.

use vstd::prelude::*;

verus! {

/// One entry of a registry.
pub struct Subscription<F> {
    /// The number the callback was registered under.
    pub id: u64,
    /// Whether the guard of this callback is still held.
    pub alive: bool,
    /// The callback itself.
    pub callback: F,
}

/// The predicate that keeps the entries whose guard is still held.
pub open spec fn alive_pred<F>() -> spec_fn(Subscription<F>) -> bool {
    |e: Subscription<F>| e.alive
}

/// The function that marks the entry numbered `id` as released.
pub open spec fn release_fn<F>(id: u64) -> spec_fn(Subscription<F>) -> Subscription<F> {
    |e: Subscription<F>|
        if e.id == id {
            Subscription { id: e.id, alive: false, callback: e.callback }
        } else {
            e
        }
}

/// The function that takes an entry to its number.
pub open spec fn id_fn<F>() -> spec_fn(Subscription<F>) -> u64 {
    |e: Subscription<F>| e.id
}

/// What a registry holds, as a mathematical value: its entries in the order
/// of their subscription, and the number the next subscriber will get.
pub struct RegistryState<F> {
    /// The entries, in the order of their subscription.
    pub entries: Seq<Subscription<F>>,
    /// The number that the next subscriber will get.
    pub next_id: nat,
}

impl<F> RegistryState<F> {
    /// The registry without subscribers.
    pub open spec fn empty() -> Self {
        RegistryState { entries: Seq::empty(), next_id: 0 }
    }

    /// Numbers grow along the list and stay below the next one to be given
    /// out; so no number occurs twice.
    pub open spec fn wf(self) -> bool {
        &&& forall|i: int|
            0 <= i < self.entries.len() ==> (#[trigger] self.entries[i]).id < self.next_id
        &&& forall|i: int, j: int|
            0 <= i < j < self.entries.len() ==> (#[trigger] self.entries[i]).id < (
            #[trigger] self.entries[j]).id
    }

    /// The state after `callback` has subscribed.
    pub open spec fn subscribed(self, callback: F) -> Self {
        RegistryState {
            entries: self.entries.push(
                Subscription { id: self.next_id as u64, alive: true, callback },
            ),
            next_id: self.next_id + 1,
        }
    }

    /// The state after the guard of subscriber `id` has been given up.
    pub open spec fn released(self, id: u64) -> Self {
        RegistryState {
            entries: self.entries.map_values(release_fn::<F>(id)),
            next_id: self.next_id,
        }
    }

    /// The state after the released entries have been dropped; the others
    /// keep their order.
    pub open spec fn pruned(self) -> Self {
        RegistryState { entries: self.entries.filter(alive_pred::<F>()), next_id: self.next_id }
    }

    /// The numbers of all entries, in order.
    pub open spec fn ids(self) -> Seq<u64> {
        self.entries.map_values(id_fn::<F>())
    }

    /// The numbers of the subscribers that a dispatch pass notifies, in the
    /// order in which it does.
    pub open spec fn live_ids(self) -> Seq<u64> {
        self.pruned().ids()
    }

    /// Whether an entry numbered `id` is in the list, released or not.
    pub open spec fn holds(self, id: u64) -> bool {
        exists|i: int| 0 <= i < self.entries.len() && (#[trigger] self.entries[i]).id == id
    }

    /// Whether subscriber `id` is in the list and its guard is still held.
    pub open spec fn is_live(self, id: u64) -> bool {
        exists|i: int|
            0 <= i < self.entries.len() && (#[trigger] self.entries[i]).id == id
                && self.entries[i].alive
    }
}

/// An ordered list of callbacks of type `F`.
pub struct CallbackRegistry<F> {
    entries: Vec<Subscription<F>>,
    next_id: u64,
}

impl<F> View for CallbackRegistry<F> {
    type V = RegistryState<F>;

    closed spec fn view(&self) -> RegistryState<F> {
        RegistryState { entries: self.entries@, next_id: self.next_id as nat }
    }
}

impl<F> Default for CallbackRegistry<F> {
    fn default() -> (r: Self)
        ensures
            r@ == RegistryState::<F>::empty(),
            r@.wf(),
    {
        CallbackRegistry::new()
    }
}

impl<F> CallbackRegistry<F> {
    /// A registry without subscribers.
    pub fn new() -> (r: Self)
        ensures
            r@ == RegistryState::<F>::empty(),
            r@.wf(),
    {
        CallbackRegistry { entries: Vec::new(), next_id: 0 }
    }

    /// The number of entries, released ones included.
    pub fn len(&self) -> (n: usize)
        ensures
            n == self@.entries.len(),
    {
        self.entries.len()
    }

    /// Whether every number has been given out, so that nothing more can
    /// subscribe.
    pub fn is_full(&self) -> (full: bool)
        ensures
            full == (self@.next_id >= u64::MAX),
    {
        self.next_id == u64::MAX
    }

    /// The callback at position `i`.
    pub fn callback_at(&self, i: usize) -> (f: &F)
        requires
            i < self@.entries.len(),
        ensures
            *f == self@.entries[i as int].callback,
    {
        &self.entries[i].callback
    }

    /// The number of the entry at position `i`.
    pub fn id_at(&self, i: usize) -> (id: u64)
        requires
            i < self@.entries.len(),
        ensures
            id == self@.entries[i as int].id,
    {
        self.entries[i].id
    }

    /// Appends `callback` to the list and returns the number it was given.
    pub fn subscribe(&mut self, callback: F) -> (id: u64)
        requires
            old(self)@.wf(),
            old(self)@.next_id < u64::MAX,
        ensures
            final(self)@ == old(self)@.subscribed(callback),
            final(self)@.wf(),
            id == old(self)@.next_id,
    {
        let id = self.next_id;
        self.entries.push(Subscription { id, alive: true, callback });
        self.next_id = id + 1;
        id
    }

    /// Marks subscriber `id` as released. The entry stays in the list until
    /// the next call of [`CallbackRegistry::prune`].
    pub fn release(&mut self, id: u64)
        ensures
            final(self)@ == old(self)@.released(id),
            old(self)@.wf() ==> final(self)@.wf(),
    {
        let mut i: usize = 0;
        while i < self.entries.len()
            invariant
                i <= self.entries.len(),
                self.entries@.len() == old(self).entries@.len(),
                self.next_id == old(self).next_id,
                forall|j: int|
                    0 <= j < i ==> self.entries@[j] == release_fn::<F>(id)(
                        #[trigger] old(self).entries@[j],
                    ),
                forall|j: int|
                    i <= j < self.entries.len() ==> self.entries@[j] == #[trigger] old(
                        self,
                    ).entries@[j],
            decreases self.entries.len() - i,
        {
            if self.entries[i].id == id {
                self.entries[i].alive = false;
            }
            i += 1;
        }
        assert(self@.entries =~= old(self)@.released(id).entries);
    }

    /// Drops the released entries. The others keep their order.
    pub fn prune(&mut self)
        ensures
            final(self)@ == old(self)@.pruned(),
            old(self)@.wf() ==> final(self)@.wf(),
    {
        let ghost before = self.entries@;
        let ghost mut done: int = 0;
        let mut i: usize = 0;
        while i < self.entries.len()
            invariant
                0 <= done <= before.len(),
                i <= self.entries.len(),
                self.entries.len() - i == before.len() - done,
                self.next_id == old(self).next_id,
                self.entries@.take(i as int) == before.take(done).filter(alive_pred::<F>()),
                self.entries@.skip(i as int) == before.skip(done),
            decreases self.entries.len() - i,
        {
            let ghost cur = self.entries@;
            let ghost e = cur[i as int];
            assert(e == before.skip(done)[0]);
            assert(before.take(done + 1) =~= before.take(done).push(e));
            proof {
                before.take(done).lemma_filter_push(e, alive_pred::<F>());
            }
            if !self.entries[i].alive {
                self.entries.remove(i);
                assert(self.entries@.take(i as int) =~= cur.take(i as int));
                assert(self.entries@.skip(i as int) =~= cur.skip(i as int).skip(1));
                assert(before.skip(done + 1) =~= before.skip(done).skip(1));
            } else {
                i += 1;
                assert(cur.take(i as int) =~= cur.take(i as int - 1).push(e));
                assert(cur.skip(i as int) =~= cur.skip(i as int - 1).skip(1));
                assert(before.skip(done + 1) =~= before.skip(done).skip(1));
            }
            proof {
                done = done + 1;
            }
        }
        assert(self.entries@ =~= self.entries@.take(i as int));
        assert(before =~= before.take(done));
        proof {
            if old(self)@.wf() {
                lemma_pruned_wf(old(self)@);
            }
        }
    }
}

/// Dropping the released entries keeps the numbers in order.
pub proof fn lemma_pruned_wf<F>(s: RegistryState<F>)
    requires
        s.wf(),
    ensures
        s.pruned().wf(),
    decreases s.entries.len(),
{
    reveal(Seq::filter);
    if s.entries.len() > 0 {
        let rest = RegistryState { entries: s.entries.drop_last(), next_id: s.next_id };
        lemma_pruned_wf(rest);
        let kept = rest.pruned().entries;
        assert forall|i: int| 0 <= i < kept.len() implies (#[trigger] kept[i]).id
            < s.entries.last().id by {
            lemma_pruned_from(rest, i);
        }
    }
}

/// Every entry that is left after pruning was in the list before, and was
/// not released.
pub proof fn lemma_pruned_from<F>(s: RegistryState<F>, i: int)
    requires
        0 <= i < s.pruned().entries.len(),
    ensures
        s.pruned().entries[i].alive,
        exists|j: int| 0 <= j < s.entries.len() && s.entries[j] == s.pruned().entries[i],
    decreases s.entries.len(),
{
    reveal(Seq::filter);
    if s.entries.len() > 0 {
        let rest = RegistryState { entries: s.entries.drop_last(), next_id: s.next_id };
        if i < rest.pruned().entries.len() {
            lemma_pruned_from(rest, i);
            let j = choose|j: int|
                0 <= j < rest.entries.len() && rest.entries[j] == rest.pruned().entries[i];
            assert(s.entries[j] == s.pruned().entries[i]);
        } else {
            assert(s.entries[s.entries.len() - 1] == s.pruned().entries[i]);
        }
    }
}

/// Pruning twice is pruning once.
pub proof fn lemma_pruned_twice<F>(s: RegistryState<F>)
    ensures
        s.pruned().pruned() == s.pruned(),
    decreases s.entries.len(),
{
    reveal(Seq::filter);
    if s.entries.len() > 0 {
        let rest = RegistryState { entries: s.entries.drop_last(), next_id: s.next_id };
        lemma_pruned_twice(rest);
        let p = alive_pred::<F>();
        rest.entries.filter(p).lemma_filter_push(s.entries.last(), p);
    }
}

} // verus!
