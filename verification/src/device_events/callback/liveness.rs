//! What giving up a guard means for everything a registry does afterwards.

use crate::device_events::callback::registry::{
    alive_pred,
    lemma_pruned_from,
    lemma_pruned_wf,
    RegistryState,
    Subscription,
};
use vstd::prelude::*;

verus! {

/// One thing that can happen to a registry.
pub enum RegistryOp<F> {
    /// A callback subscribes.
    Subscribe(F),
    /// The guard of the subscriber with this number is given up.
    Release(u64),
    /// A dispatch pass: the released entries are dropped and the others
    /// notified.
    Dispatch,
}

impl<F> RegistryState<F> {
    /// The state after `op`.
    pub open spec fn step(self, op: RegistryOp<F>) -> Self {
        match op {
            RegistryOp::Subscribe(callback) => self.subscribed(callback),
            RegistryOp::Release(id) => self.released(id),
            RegistryOp::Dispatch => self.pruned(),
        }
    }

    /// The state after all of `ops`, first to last.
    pub open spec fn run(self, ops: Seq<RegistryOp<F>>) -> Self
        decreases ops.len(),
    {
        if ops.len() == 0 {
            self
        } else {
            self.run(ops.drop_last()).step(ops.last())
        }
    }
}

/// A subscriber that a dispatch pass notifies is in the list and not
/// released.
pub proof fn lemma_notified_is_live<F>(s: RegistryState<F>, id: u64)
    requires
        s.live_ids().contains(id),
    ensures
        s.is_live(id),
{
    let i = choose|i: int| 0 <= i < s.live_ids().len() && s.live_ids()[i] == id;
    lemma_pruned_from(s, i);
    let j = choose|j: int| 0 <= j < s.entries.len() && s.entries[j] == s.pruned().entries[i];
    assert(s.entries[j].id == id && s.entries[j].alive);
}

/// A subscriber that is in the list and not released is notified by a
/// dispatch pass.
pub proof fn lemma_live_is_notified<F>(s: RegistryState<F>, id: u64)
    requires
        s.is_live(id),
    ensures
        s.live_ids().contains(id),
{
    let j = choose|j: int|
        0 <= j < s.entries.len() && (#[trigger] s.entries[j]).id == id && s.entries[j].alive;
    broadcast use vstd::seq_lib::group_filter_ensures;

    s.entries.lemma_filter_contains(alive_pred::<F>(), j);
    let kept = s.pruned().entries;
    let i = choose|i: int| 0 <= i < kept.len() && kept[i] == s.entries[j];
    assert(s.live_ids()[i] == id);
}

/// Once released, a subscriber is dropped by the next dispatch pass, and no
/// pass notifies it, that one included.
pub proof fn lemma_release_then_dispatch<F>(s: RegistryState<F>, id: u64)
    ensures
        !s.released(id).is_live(id),
        !s.released(id).live_ids().contains(id),
        !s.released(id).pruned().holds(id),
{
    let r = s.released(id);
    if r.live_ids().contains(id) {
        lemma_notified_is_live(r, id);
    }
    lemma_dead_is_dropped(r, id);
}

/// A dispatch pass drops every released entry.
pub proof fn lemma_dead_is_dropped<F>(s: RegistryState<F>, id: u64)
    requires
        !s.is_live(id),
    ensures
        !s.pruned().holds(id),
        !s.pruned().is_live(id),
{
    if s.pruned().holds(id) {
        let i = choose|i: int|
            0 <= i < s.pruned().entries.len() && (#[trigger] s.pruned().entries[i]).id == id;
        lemma_pruned_from(s, i);
        let j = choose|j: int| 0 <= j < s.entries.len() && s.entries[j] == s.pruned().entries[i];
        assert(s.entries[j].id == id && s.entries[j].alive);
    }
}

/// Nothing that happens to a registry brings back a number that it has
/// given out, nor makes a released subscriber live again.
pub proof fn lemma_step_keeps_silence<F>(s: RegistryState<F>, op: RegistryOp<F>, id: u64)
    requires
        s.wf(),
        id < s.next_id,
        s.next_id < u64::MAX,
        !s.is_live(id),
    ensures
        s.step(op).wf(),
        s.next_id <= s.step(op).next_id <= s.next_id + 1,
        !s.step(op).is_live(id),
        !s.holds(id) ==> !s.step(op).holds(id),
        op is Dispatch ==> !s.step(op).holds(id),
{
    let t = s.step(op);
    match op {
        RegistryOp::Subscribe(callback) => {
            if t.holds(id) {
                let i = choose|i: int|
                    0 <= i < t.entries.len() && (#[trigger] t.entries[i]).id == id;
                if i < s.entries.len() {
                    assert(s.entries[i].id == id);
                }
            }
            if t.is_live(id) {
                let i = choose|i: int|
                    0 <= i < t.entries.len() && (#[trigger] t.entries[i]).id == id
                        && t.entries[i].alive;
                assert(s.entries[i].id == id && s.entries[i].alive);
            }
        },
        RegistryOp::Release(other) => {
            if t.holds(id) {
                let i = choose|i: int|
                    0 <= i < t.entries.len() && (#[trigger] t.entries[i]).id == id;
                assert(s.entries[i].id == id);
            }
            if t.is_live(id) {
                let i = choose|i: int|
                    0 <= i < t.entries.len() && (#[trigger] t.entries[i]).id == id
                        && t.entries[i].alive;
                assert(s.entries[i].id == id && s.entries[i].alive);
            }
            assert forall|i: int, j: int| 0 <= i < j < t.entries.len() implies (
            #[trigger] t.entries[i]).id < (#[trigger] t.entries[j]).id by {
                assert(s.entries[i].id < s.entries[j].id);
            }
            assert forall|i: int| 0 <= i < t.entries.len() implies (#[trigger] t.entries[i]).id
                < t.next_id by {
                assert(s.entries[i].id < s.next_id);
            }
        },
        RegistryOp::Dispatch => {
            lemma_pruned_wf(s);
            lemma_dead_is_dropped(s, id);
        },
    }
}

/// Guard-scoped liveness. Let a registry have given out the number `id`, and
/// let the guard of that subscriber be given up. Then, whatever happens to
/// the registry afterwards, no dispatch pass notifies the subscriber; and as
/// soon as one dispatch pass has run, the registry no longer holds its entry.
pub proof fn lemma_released_stays_silent<F>(
    s: RegistryState<F>,
    id: u64,
    ops: Seq<RegistryOp<F>>,
)
    requires
        s.wf(),
        id < s.next_id,
        s.next_id + ops.len() <= u64::MAX,
    ensures
        s.released(id).run(ops).wf(),
        s.next_id <= s.released(id).run(ops).next_id <= s.next_id + ops.len(),
        !s.released(id).run(ops).is_live(id),
        !s.released(id).run(ops).live_ids().contains(id),
        (exists|k: int| 0 <= k < ops.len() && ops[k] is Dispatch) ==> !s.released(id).run(
            ops,
        ).holds(id),
    decreases ops.len(),
{
    let r = s.released(id);
    if ops.len() == 0 {
        lemma_release_then_dispatch(s, id);
        assert forall|i: int, j: int| 0 <= i < j < r.entries.len() implies (
        #[trigger] r.entries[i]).id < (#[trigger] r.entries[j]).id by {
            assert(s.entries[i].id < s.entries[j].id);
        }
        assert forall|i: int| 0 <= i < r.entries.len() implies (#[trigger] r.entries[i]).id
            < r.next_id by {
            assert(s.entries[i].id < s.next_id);
        }
    } else {
        let before = ops.drop_last();
        lemma_released_stays_silent(s, id, before);
        let t = r.run(before);
        lemma_step_keeps_silence(t, ops.last(), id);
        let u = t.step(ops.last());
        assert(u == r.run(ops));
        if u.live_ids().contains(id) {
            lemma_notified_is_live(u, id);
        }
        if exists|k: int| 0 <= k < ops.len() && ops[k] is Dispatch {
            let k = choose|k: int| 0 <= k < ops.len() && ops[k] is Dispatch;
            if k < before.len() {
                assert(before[k] is Dispatch);
            }
        }
    }
}

/// While its guard is held, a subscriber is notified by every dispatch pass:
/// nothing but giving up its own guard ends that.
pub proof fn lemma_held_stays_live<F>(s: RegistryState<F>, op: RegistryOp<F>, id: u64)
    requires
        s.is_live(id),
        !(op matches RegistryOp::Release(other) && other == id),
    ensures
        s.step(op).is_live(id),
        s.step(op).live_ids().contains(id),
{
    let j = choose|j: int|
        0 <= j < s.entries.len() && (#[trigger] s.entries[j]).id == id && s.entries[j].alive;
    let t = s.step(op);
    match op {
        RegistryOp::Subscribe(callback) => {
            assert(t.entries[j] == s.entries[j]);
        },
        RegistryOp::Release(other) => {
            assert(t.entries[j] == s.entries[j]);
        },
        RegistryOp::Dispatch => {
            lemma_live_is_notified(s, id);
            lemma_notified_is_live(s, id);
            let i = choose|i: int| 0 <= i < s.live_ids().len() && s.live_ids()[i] == id;
            lemma_pruned_from(s, i);
            assert(t.entries[i].id == id && t.entries[i].alive);
        },
    }
    lemma_live_is_notified(t, id);
}

/// A callback that subscribes is notified from the next dispatch pass on,
/// after every callback that subscribed before it.
pub proof fn lemma_subscribed_is_notified_last<F>(s: RegistryState<F>, callback: F)
    requires
        s.next_id <= u64::MAX,
    ensures
        s.subscribed(callback).live_ids() == s.live_ids().push(s.next_id as u64),
        s.subscribed(callback).is_live(s.next_id as u64),
{
    let entry = Subscription { id: s.next_id as u64, alive: true, callback };
    let t = s.subscribed(callback);
    s.entries.lemma_filter_push(entry, alive_pred::<F>());
    assert(t.pruned().entries == s.pruned().entries.push(entry));
    assert(t.live_ids() =~= s.live_ids().push(s.next_id as u64));
    assert(t.entries[t.entries.len() - 1] == entry);
}

} // verus!
