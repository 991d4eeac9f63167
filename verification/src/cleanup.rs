//! Reclaiming what is persisted for agents that are no longer alive.
//!
//! The role of an agent is persisted outside the process, and the record
//! outlives the agent. At a fixed interval the persisted keys are held
//! against the names of the live agents, and the keys of the dead are
//! deleted. Nothing else is touched.

use vstd::prelude::*;
use vstd::hash_set::StringHashSet;

verus! {

/// Every so many cycles the persisted records are cleaned up.
pub const CLEANUP_INTERVAL: u32 = 1000;

/// Whether the persisted records are cleaned up in the cycle of that number.
pub open spec fn cleanup_is_due(time: u32) -> bool {
    time % CLEANUP_INTERVAL == 0
}

/// Whether `key` is among the first `n` names.
pub open spec fn among(names: Seq<String>, n: int, key: Seq<char>) -> bool {
    exists|i: int| 0 <= i < n && i < names.len() && (#[trigger] names[i])@ == key
}

/// Whether `key` is one of the names.
pub open spec fn listed(names: Seq<String>, key: Seq<char>) -> bool {
    among(names, names.len() as int, key)
}

/// The persisted keys that belong to no live agent, in the order in which
/// they are stored.
pub open spec fn orphans_of(stored: Seq<String>, alive: Seq<String>) -> Seq<Seq<char>>
    decreases stored.len(),
{
    if stored.len() == 0 {
        Seq::empty()
    } else {
        let before = orphans_of(stored.drop_last(), alive);
        if listed(alive, stored.last()@) {
            before
        } else {
            before.push(stored.last()@)
        }
    }
}

/// A persisted store once the given keys have been deleted from it.
pub open spec fn store_after<V>(store: Map<Seq<char>, V>, deleted: Seq<Seq<char>>) -> Map<
    Seq<char>,
    V,
> {
    store.remove_keys(deleted.to_set())
}

/// Says whether the persisted records are cleaned up in this cycle.
pub fn cleanup_due(time: u32) -> (due: bool)
    ensures
        due == cleanup_is_due(time),
{
    time % CLEANUP_INTERVAL == 0
}

/// Collects the names of the live agents in a set.
fn alive_set(alive: &Vec<String>) -> (set: StringHashSet)
    ensures
        forall|key: Seq<char>| set@.contains(key) <==> listed(alive@, key),
{
    let mut set = StringHashSet::new();
    let mut i: usize = 0;
    while i < alive.len()
        invariant
            i <= alive.len(),
            forall|key: Seq<char>| set@.contains(key) <==> among(alive@, i as int, key),
        decreases alive.len() - i,
    {
        let ghost before = set@;
        set.insert(alive[i].clone());
        proof {
            assert forall|key: Seq<char>| set@.contains(key) <==> among(
                alive@,
                i + 1,
                key,
            ) by {
                if among(alive@, i + 1, key) {
                    let j = choose|j: int|
                        0 <= j < i + 1 && j < alive@.len() && (#[trigger] alive@[j])@ == key;
                    if j < i {
                        assert(among(alive@, i as int, key));
                    }
                }
                if before.contains(key) {
                    assert(among(alive@, i as int, key));
                    let j = choose|j: int|
                        0 <= j < i && j < alive@.len() && (#[trigger] alive@[j])@ == key;
                    assert(0 <= j < i + 1 && (alive@[j])@ == key);
                }
                if key == alive@[i as int]@ {
                    assert(0 <= i < i + 1 && (alive@[i as int])@ == key);
                }
            }
        }
        i = i + 1;
    }
    set
}

/// Holds the persisted keys against the names of the live agents and
/// returns the keys to delete: those of agents that are no longer alive,
/// in the order in which they are stored.
pub fn orphans(stored: &Vec<String>, alive: &Vec<String>) -> (dead: Vec<String>)
    ensures
        dead.deep_view() == orphans_of(stored@, alive@),
{
    let living = alive_set(alive);
    let mut dead: Vec<String> = Vec::new();
    let mut i: usize = 0;
    assert(stored@.take(0).len() == 0);
    while i < stored.len()
        invariant
            i <= stored.len(),
            forall|key: Seq<char>| living@.contains(key) <==> listed(alive@, key),
            dead.deep_view() =~= orphans_of(stored@.take(i as int), alive@),
        decreases stored.len() - i,
    {
        proof {
            assert(stored@.take(i + 1).drop_last() =~= stored@.take(i as int));
            assert(stored@.take(i + 1).last() == stored@[i as int]);
        }
        if !living.contains(stored[i].as_str()) {
            let ghost before = dead.deep_view();
            dead.push(stored[i].clone());
            assert(dead.deep_view() =~= before.push(stored@[i as int]@));
        }
        i = i + 1;
    }
    assert(stored@.take(i as int) =~= stored@);
    dead
}

/// The keys to delete are exactly the persisted keys that name no live
/// agent.
pub proof fn lemma_orphans_exact(stored: Seq<String>, alive: Seq<String>, key: Seq<char>)
    ensures
        orphans_of(stored, alive).contains(key) <==> (listed(stored, key) && !listed(alive, key)),
    decreases stored.len(),
{
    if stored.len() > 0 {
        let rest = stored.drop_last();
        let before = orphans_of(rest, alive);
        lemma_orphans_exact(rest, alive, key);
        if listed(rest, key) {
            let i = choose|i: int| 0 <= i < rest.len() && (#[trigger] rest[i])@ == key;
            assert(stored[i]@ == key);
        }
        if listed(stored, key) && !listed(rest, key) {
            let i = choose|i: int| 0 <= i < stored.len() && (#[trigger] stored[i])@ == key;
            if i < rest.len() {
                assert(rest[i]@ == key);
            }
            assert(stored.last()@ == key);
        }
        if stored.last()@ == key {
            assert(stored[stored.len() - 1]@ == key);
        }
        if !listed(alive, stored.last()@) {
            let after = before.push(stored.last()@);
            assert(after[after.len() - 1] == stored.last()@);
            if before.contains(key) {
                let i = choose|i: int| 0 <= i < before.len() && before[i] == key;
                assert(after[i] == key);
            }
            if after.contains(key) {
                let i = choose|i: int| 0 <= i < after.len() && after[i] == key;
                if i < before.len() {
                    assert(before[i] == key);
                }
            }
        }
    }
}

/// Cleaning up removes the records of the dead and nothing else: where
/// `stored` lists the keys of a persisted store, the store keeps exactly
/// the records of the live agents, each as it was.
pub proof fn lemma_cleanup_removes_only_the_dead<V>(
    store: Map<Seq<char>, V>,
    stored: Seq<String>,
    alive: Seq<String>,
)
    requires
        forall|key: Seq<char>| store.contains_key(key) <==> listed(stored, key),
    ensures
        ({
            let after = store_after(store, orphans_of(stored, alive));
            &&& forall|key: Seq<char>|
                after.contains_key(key) <==> (store.contains_key(key) && listed(alive, key))
            &&& forall|key: Seq<char>| after.contains_key(key) ==> after[key] == store[key]
        }),
{
    let deleted = orphans_of(stored, alive);
    let after = store_after(store, deleted);
    assert forall|key: Seq<char>|
        after.contains_key(key) <==> (store.contains_key(key) && listed(alive, key)) by {
        lemma_orphans_exact(stored, alive, key);
    }
}

} // verus!
