//! The change notifier: who is told when the aggregate stylesheet changes.

use std::collections::HashMap;
use vstd::prelude::*;
use vstd::std_specs::iter::IteratorSpec;

verus! {

broadcast use vstd::std_specs::hash::group_hash_axioms;

/// The listeners of the aggregate stylesheet: for each observer that
/// listens, by its identity, the callback that tells it of a change.
pub struct StyleListeners<C> {
    listeners: HashMap<u64, C>,
}

impl<C> View for StyleListeners<C> {
    type V = Map<u64, C>;

    /// The callback of each observer that listens.
    closed spec fn view(&self) -> Map<u64, C> {
        self.listeners@
    }
}

/// Whether `plan` calls every listener of `listeners` exactly once, by its
/// own callback, and nobody else.
pub open spec fn notifies_each_once<C>(plan: Seq<(u64, &C)>, listeners: Map<u64, C>) -> bool {
    &&& forall|i: int|
        0 <= i < plan.len() ==> listeners.contains_key(#[trigger] plan[i].0) && listeners[plan[i].0]
            == *plan[i].1
    &&& forall|i: int, j: int|
        0 <= i < j < plan.len() ==> (#[trigger] plan[i]).0 != (#[trigger] plan[j]).0
    &&& forall|id: u64| #[trigger]
        listeners.contains_key(id) ==> exists|i: int| 0 <= i < plan.len() && (#[trigger] plan[i]).0 == id
}

impl<C> StyleListeners<C> {
    /// No listeners.
    pub fn new() -> (listeners: Self)
        ensures
            listeners@ == Map::<u64, C>::empty(),
    {
        StyleListeners { listeners: HashMap::new() }
    }

    /// The calls that one notification consists of: every listener once,
    /// in no particular order.
    pub fn notify(&self) -> (plan: Vec<(u64, &C)>)
        ensures
            notifies_each_once(plan@, self@),
    {
        let mut plan: Vec<(u64, &C)> = Vec::new();
        for entry in it: self.listeners.iter()
            invariant
                it.seq() == vstd::std_specs::hash::spec_hash_map_iter(&self.listeners).remaining(),
                it.seq().no_duplicates(),
                plan@.len() == it.index(),
                forall|i: int| 0 <= i < plan@.len() ==> (#[trigger] plan@[i]).0 == *it.seq()[i].0 && plan@[i].1 == it.seq()[i].1,
        {
            let (id, callback) = entry;
            plan.push((*id, callback));
        }
        proof {
            let entries = vstd::std_specs::hash::spec_hash_map_iter(&self.listeners).remaining();
            assert(plan@.len() == entries.len());
            assert forall|id: u64| #[trigger] self@.contains_key(id) implies exists|i: int|
                0 <= i < plan@.len() && (#[trigger] plan@[i]).0 == id by {
                assert(entries.contains((&id, &self@[id])));
                let i = choose|i: int| 0 <= i < entries.len() && entries[i] == (&id, &self@[id]);
                assert(plan@[i].0 == id);
            }
            assert forall|i: int, j: int| 0 <= i < j < plan@.len() implies (#[trigger] plan@[i]).0 != (
            #[trigger] plan@[j]).0 by {
                if plan@[i].0 == plan@[j].0 {
                    assert(self@.contains_key(*entries[i].0));
                    assert(self@.contains_key(*entries[j].0));
                    assert(entries[i] == entries[j]);
                }
            }
        }
        plan
    }
}

/// The handle of one listening observer: what it registered under, so that
/// it can be released when the observer goes away.
pub struct StyleListener {
    id: u64,
}

impl StyleListener {
    /// The identity of the observer.
    pub closed spec fn spec_id(&self) -> u64 {
        self.id
    }

    /// The identity of the observer.
    #[verifier::when_used_as_spec(spec_id)]
    pub fn id(&self) -> (id: u64)
        ensures
            id == self.spec_id(),
    {
        self.id
    }

    /// Makes the observer `id` listen with the callback `update`. A callback
    /// that the observer had before is replaced.
    pub fn register<C>(listeners: &mut StyleListeners<C>, id: u64, update: C) -> (listener: Self)
        ensures
            final(listeners)@ == old(listeners)@.insert(id, update),
            listener.id() == id,
    {
        listeners.listeners.insert(id, update);
        StyleListener { id }
    }

    /// Stops the observer from listening. Nothing changes if it does not
    /// listen any more.
    pub fn release<C>(&self, listeners: &mut StyleListeners<C>)
        ensures
            final(listeners)@ == old(listeners)@.remove(self.id()),
    {
        listeners.listeners.remove(&self.id);
    }
}

/// How often `plan` calls the observer `id`.
pub open spec fn times_notified<C>(plan: Seq<(u64, &C)>, id: u64) -> nat
    decreases plan.len(),
{
    if plan.len() == 0 {
        0
    } else {
        times_notified(plan.drop_last(), id) + if plan.last().0 == id {
            1nat
        } else {
            0nat
        }
    }
}

/// In a plan that calls nobody twice, an observer is called once if it
/// occurs at all.
proof fn lemma_times_notified<C>(plan: Seq<(u64, &C)>, id: u64)
    requires
        forall|i: int, j: int|
            0 <= i < j < plan.len() ==> (#[trigger] plan[i]).0 != (#[trigger] plan[j]).0,
    ensures
        times_notified(plan, id) == if exists|i: int|
            0 <= i < plan.len() && (#[trigger] plan[i]).0 == id {
            1nat
        } else {
            0nat
        },
    decreases plan.len(),
{
    if plan.len() > 0 {
        let rest = plan.drop_last();
        lemma_times_notified(rest, id);
        let last = plan.len() - 1;
        if plan[last].0 == id {
            if exists|i: int| 0 <= i < rest.len() && (#[trigger] rest[i]).0 == id {
                let i = choose|i: int| 0 <= i < rest.len() && (#[trigger] rest[i]).0 == id;
                assert(plan[i].0 == plan[last].0);
            }
        } else {
            if exists|i: int| 0 <= i < plan.len() && (#[trigger] plan[i]).0 == id {
                let i = choose|i: int| 0 <= i < plan.len() && (#[trigger] plan[i]).0 == id;
                assert(rest[i].0 == id);
            }
        }
    }
}

/// A notification calls each observer that listens exactly once, and an
/// observer that does not listen not at all.
pub proof fn lemma_notified_exactly_once<C>(plan: Seq<(u64, &C)>, listeners: Map<u64, C>, id: u64)
    requires
        notifies_each_once(plan, listeners),
    ensures
        times_notified(plan, id) == if listeners.contains_key(id) {
            1nat
        } else {
            0nat
        },
{
    lemma_times_notified(plan, id);
    if exists|i: int| 0 <= i < plan.len() && (#[trigger] plan[i]).0 == id {
        let i = choose|i: int| 0 <= i < plan.len() && (#[trigger] plan[i]).0 == id;
        assert(listeners.contains_key(plan[i].0));
    }
}

/// With two observers listening and no others, a notification calls both,
/// once each; after the first of them is released, a notification calls
/// the second once and the first no more.
pub proof fn lemma_fan_out<C>(
    first: u64,
    first_update: C,
    second: u64,
    second_update: C,
    plan: Seq<(u64, &C)>,
    later_plan: Seq<(u64, &C)>,
)
    requires
        first != second,
        notifies_each_once(
            plan,
            Map::<u64, C>::empty().insert(first, first_update).insert(second, second_update),
        ),
        notifies_each_once(
            later_plan,
            Map::<u64, C>::empty().insert(first, first_update).insert(second, second_update).remove(
                first,
            ),
        ),
    ensures
        times_notified(plan, first) == 1,
        times_notified(plan, second) == 1,
        times_notified(later_plan, first) == 0,
        times_notified(later_plan, second) == 1,
{
    let both = Map::<u64, C>::empty().insert(first, first_update).insert(second, second_update);
    lemma_notified_exactly_once(plan, both, first);
    lemma_notified_exactly_once(plan, both, second);
    lemma_notified_exactly_once(later_plan, both.remove(first), first);
    lemma_notified_exactly_once(later_plan, both.remove(first), second);
}

/// Releasing an observer a second time changes nothing.
pub proof fn lemma_release_is_idempotent<C>(listeners: Map<u64, C>, id: u64)
    ensures
        listeners.remove(id).remove(id) == listeners.remove(id),
        !listeners.contains_key(id) ==> listeners.remove(id) == listeners,
{
    assert(listeners.remove(id).remove(id) =~= listeners.remove(id));
    if !listeners.contains_key(id) {
        assert(listeners.remove(id) =~= listeners);
    }
}

} // verus!
