//! Choosing a task for an idle agent.
//!
//! The choice depends on the agent's role and on whether it carries energy.
//! A carrying agent looks for a place to spend or deliver what it carries,
//! as the rule of its role says; an empty one, whatever its role, looks for
//! an energy source. Among the entities that a search reports, the first
//! suitable one is taken, in the order in which the world reported them.
//! Only an agent whose role reads as unknown is given nothing at all: it is
//! retired.

use vstd::prelude::*;
use crate::creep_roles::Role;
use crate::task::{Task, WorldHandle};

verus! {

/// A query on the agent's locality.
#[derive(Clone, Copy, Debug, PartialEq, Eq, Structural)]
pub enum Search {
    /// All structures.
    Structures,
    /// The construction sites.
    ConstructionSites,
    /// The energy sources that are not exhausted.
    ActiveSources,
}

/// One entity that a search reported.
#[derive(Clone, Copy, Debug, PartialEq, Eq)]
pub enum Sighting {
    Controller(WorldHandle),
    /// A spawning structure and the energy it could still take.
    Spawn(WorldHandle, i32),
    /// An extension structure and the energy it could still take.
    Extension(WorldHandle, i32),
    /// A construction site; one that was placed in this very cycle has no
    /// handle yet.
    ConstructionSite(Option<WorldHandle>),
    Source(WorldHandle),
    /// Anything that no task is aimed at.
    Other,
}

/// A kind of target that an agent may be looking for.
#[derive(Clone, Copy, Debug, PartialEq, Eq, Structural)]
pub enum Want {
    Source,
    Controller,
    Site,
    /// A spawning structure with room for energy.
    Spawn,
    /// An extension structure with room for energy.
    Extension,
}

impl Want {
    /// The task that a sighting offers to an agent that looks for this kind
    /// of target, if it offers one.
    pub open spec fn task(self, sighting: Sighting) -> Option<Task> {
        match (self, sighting) {
            (Want::Source, Sighting::Source(handle)) => Some(Task::Harvest(handle)),
            (Want::Controller, Sighting::Controller(handle)) => Some(Task::Upgrade(handle)),
            (Want::Site, Sighting::ConstructionSite(Some(handle))) => Some(Task::Build(handle)),
            (Want::Spawn, Sighting::Spawn(handle, free)) => if free > 0 {
                Some(Task::TransferToSpawn(handle))
            } else {
                None
            },
            (Want::Extension, Sighting::Extension(handle, free)) => if free > 0 {
                Some(Task::TransferToExtension(handle))
            } else {
                None
            },
            _ => None,
        }
    }

    pub fn offer(self, sighting: &Sighting) -> (task: Option<Task>)
        ensures
            task == self.task(*sighting),
    {
        match (self, sighting) {
            (Want::Source, Sighting::Source(handle)) => Some(Task::Harvest(*handle)),
            (Want::Controller, Sighting::Controller(handle)) => Some(Task::Upgrade(*handle)),
            (Want::Site, Sighting::ConstructionSite(Some(handle))) => Some(Task::Build(*handle)),
            (Want::Spawn, Sighting::Spawn(handle, free)) => if *free > 0 {
                Some(Task::TransferToSpawn(*handle))
            } else {
                None
            },
            (Want::Extension, Sighting::Extension(handle, free)) => if *free > 0 {
                Some(Task::TransferToExtension(*handle))
            } else {
                None
            },
            _ => None,
        }
    }
}

/// The task offered by the first sighting that offers one.
pub open spec fn first_match(found: Seq<Sighting>, want: Want) -> Option<Task>
    decreases found.len(),
{
    if found.len() == 0 {
        None
    } else {
        match want.task(found.first()) {
            Some(task) => Some(task),
            None => first_match(found.drop_first(), want),
        }
    }
}

/// The search that an idle agent makes, if it makes one. An empty agent of
/// any recognised role looks for sources. A carrying agent looks for what
/// the rule of its role spends on; one whose role has no such rule makes no
/// search. An agent of unknown role makes none either.
pub open spec fn search_for(role: Role, carried: u32) -> Option<Search> {
    if !role.recognised() {
        None
    } else if carried == 0 {
        Some(Search::ActiveSources)
    } else if role == Role::Builder {
        Some(Search::ConstructionSites)
    } else if role.spends() {
        Some(Search::Structures)
    } else {
        None
    }
}

/// The task that an idle agent takes up, given what its search reported.
///
/// An empty agent of any recognised role harvests the first source. A
/// carrying upgrader upgrades the first controller, a carrying builder builds
/// at the first construction site that has a handle, and a carrying harvester
/// delivers to the first spawning structure with room or, if there is none,
/// to the first extension with room. With no such target the agent stays
/// idle, and so does a carrying agent whose role has no rule for spending.
/// An agent of unknown role takes up nothing.
pub open spec fn chosen(role: Role, carried: u32, found: Seq<Sighting>) -> Option<Task> {
    if !role.recognised() {
        None
    } else if carried == 0 {
        first_match(found, Want::Source)
    } else if role == Role::Upgrader {
        first_match(found, Want::Controller)
    } else if role == Role::Builder {
        first_match(found, Want::Site)
    } else if role == Role::Harvester {
        match first_match(found, Want::Spawn) {
            Some(task) => Some(task),
            None => first_match(found, Want::Extension),
        }
    } else {
        None
    }
}

/// What `first_match` finds is offered by a sighting before which no
/// sighting offers anything; it finds nothing only if no sighting offers
/// anything.
pub proof fn lemma_first_match(found: Seq<Sighting>, want: Want)
    ensures
        match first_match(found, want) {
            Some(task) => exists|i: int|
                0 <= i < found.len() && want.task(#[trigger] found[i]) == Some(task) && forall|
                    j: int,
                |
                    0 <= j < i ==> want.task(#[trigger] found[j]) is None,
            None => forall|i: int| 0 <= i < found.len() ==> want.task(#[trigger] found[i]) is None,
        },
    decreases found.len(),
{
    if found.len() > 0 {
        let rest = found.drop_first();
        lemma_first_match(rest, want);
        assert(forall|i: int| 0 <= i < rest.len() ==> rest[i] == found[i + 1]);
        match want.task(found.first()) {
            Some(task) => {
                assert(want.task(found[0]) == Some(task));
            },
            None => {
                match first_match(rest, want) {
                    Some(task) => {
                        let i = choose|i: int|
                            0 <= i < rest.len() && want.task(#[trigger] rest[i]) == Some(task)
                                && forall|j: int|
                                0 <= j < i ==> want.task(#[trigger] rest[j]) is None;
                        assert(want.task(found[i + 1]) == Some(task));
                        assert forall|j: int| 0 <= j < i + 1 implies want.task(
                            #[trigger] found[j],
                        ) is None by {
                            if j > 0 {
                                assert(found[j] == rest[j - 1]);
                            }
                        }
                    },
                    None => {
                        assert forall|i: int| 0 <= i < found.len() implies want.task(
                            #[trigger] found[i],
                        ) is None by {
                            if i > 0 {
                                assert(found[i] == rest[i - 1]);
                            }
                        }
                    },
                }
            },
        }
    }
}

/// Says which search an idle agent makes; `None` for an agent that makes
/// none.
pub fn plan_search(role: Role, carried: u32) -> (search: Option<Search>)
    ensures
        search == search_for(role, carried),
{
    if !role.is_recognised() {
        None
    } else if carried == 0 {
        Some(Search::ActiveSources)
    } else {
        match role {
            Role::Builder => Some(Search::ConstructionSites),
            Role::Harvester | Role::Upgrader => Some(Search::Structures),
            Role::Repairer | Role::Unknown => None,
        }
    }
}

/// Walks through the sightings in the order in which they were reported and
/// returns the task of the first that offers one.
pub fn find_first(found: &Vec<Sighting>, want: Want) -> (task: Option<Task>)
    ensures
        task == first_match(found@, want),
{
    let mut i: usize = 0;
    assert(found@.skip(0) =~= found@);
    while i < found.len()
        invariant
            i <= found.len(),
            first_match(found@, want) == first_match(found@.skip(i as int), want),
        decreases found.len() - i,
    {
        let offer = want.offer(&found[i]);
        proof {
            let rest = found@.skip(i as int);
            assert(rest.first() == found@[i as int]);
            assert(rest.drop_first() =~= found@.skip(i + 1));
        }
        if offer.is_some() {
            return offer;
        }
        i = i + 1;
    }
    assert(found@.skip(i as int).len() == 0);
    None
}

/// Chooses the task that an idle agent takes up from what its search
/// reported, or `None` if the agent stays idle.
pub fn assign(role: Role, carried: u32, found: &Vec<Sighting>) -> (task: Option<Task>)
    ensures
        task == chosen(role, carried, found@),
{
    if !role.is_recognised() {
        None
    } else if carried == 0 {
        find_first(found, Want::Source)
    } else {
        match role {
            Role::Upgrader => find_first(found, Want::Controller),
            Role::Builder => find_first(found, Want::Site),
            Role::Harvester => {
                let spawn = find_first(found, Want::Spawn);
                if spawn.is_some() {
                    spawn
                } else {
                    find_first(found, Want::Extension)
                }
            },
            Role::Repairer | Role::Unknown => None,
        }
    }
}

/// A carrying upgrader that was shown a controller always takes up an
/// upgrade, and its target is a controller that was shown: the first.
pub proof fn lemma_upgrader_takes_controller(carried: u32, found: Seq<Sighting>)
    requires
        carried > 0,
        exists|i: int| 0 <= i < found.len() && #[trigger] found[i] is Controller,
    ensures
        chosen(Role::Upgrader, carried, found) is Some,
        chosen(Role::Upgrader, carried, found)->Some_0 is Upgrade,
        exists|i: int|
            0 <= i < found.len() && #[trigger] found[i] == Sighting::Controller(
                chosen(Role::Upgrader, carried, found)->Some_0.target(),
            ) && forall|j: int| 0 <= j < i ==> !(#[trigger] found[j] is Controller),
{
    lemma_first_match(found, Want::Controller);
    let shown = choose|i: int| 0 <= i < found.len() && #[trigger] found[i] is Controller;
    assert(Want::Controller.task(found[shown]) is Some);
    let task = first_match(found, Want::Controller)->Some_0;
    let i = choose|i: int|
        0 <= i < found.len() && Want::Controller.task(#[trigger] found[i]) == Some(task)
            && forall|j: int|
            0 <= j < i ==> Want::Controller.task(#[trigger] found[j]) is None;
    assert(found[i] == Sighting::Controller(task.target()));
    assert forall|j: int| 0 <= j < i implies !(#[trigger] found[j] is Controller) by {
        assert(Want::Controller.task(found[j]) is None);
    }
}

/// An agent that carries nothing never takes up anything but a harvest,
/// whatever its role and whatever else was shown to it: carried energy is
/// what opens the other tasks. And every empty agent of a recognised role,
/// the reserved one too, looks for sources and harvests the first that was
/// shown.
pub proof fn lemma_empty_agent_only_harvests(role: Role, found: Seq<Sighting>)
    ensures
        chosen(role, 0, found) is Some ==> chosen(role, 0, found)->Some_0 is Harvest,
        role.recognised() ==> search_for(role, 0) == Some(Search::ActiveSources) && chosen(
            role,
            0,
            found,
        ) == first_match(found, Want::Source),
        role.recognised() && (exists|i: int| 0 <= i < found.len() && #[trigger] found[i] is Source)
            ==> chosen(role, 0, found) is Some,
{
    lemma_first_match(found, Want::Source);
    if role.recognised() && (exists|i: int| 0 <= i < found.len() && #[trigger] found[i] is Source) {
        let shown = choose|i: int| 0 <= i < found.len() && #[trigger] found[i] is Source;
        assert(Want::Source.task(found[shown]) is Some);
    }
}

/// A carrying harvester prefers spawning structures: it delivers to an
/// extension only if no spawning structure with room was shown.
pub proof fn lemma_harvester_prefers_spawn(carried: u32, found: Seq<Sighting>)
    requires
        carried > 0,
    ensures
        (exists|i: int|
            0 <= i < found.len() && Want::Spawn.task(#[trigger] found[i]) is Some) ==> chosen(
            Role::Harvester,
            carried,
            found,
        ) is Some && chosen(Role::Harvester, carried, found)->Some_0 is TransferToSpawn,
        chosen(Role::Harvester, carried, found) is Some ==> (chosen(
            Role::Harvester,
            carried,
            found,
        )->Some_0 is TransferToSpawn || chosen(
            Role::Harvester,
            carried,
            found,
        )->Some_0 is TransferToExtension),
{
    lemma_first_match(found, Want::Spawn);
    lemma_first_match(found, Want::Extension);
    if exists|i: int| 0 <= i < found.len() && Want::Spawn.task(#[trigger] found[i]) is Some {
        let shown = choose|i: int|
            0 <= i < found.len() && Want::Spawn.task(#[trigger] found[i]) is Some;
        assert(Want::Spawn.task(found[shown]) is Some);
    }
}

/// A carrying agent whose role has no rule for spending stays idle: it
/// makes no search and takes up nothing, whatever is shown to it. An agent
/// of unknown role takes up nothing either, carrying or not.
pub proof fn lemma_no_rule_no_task(role: Role, carried: u32, found: Seq<Sighting>)
    requires
        !role.spends(),
    ensures
        carried > 0 ==> search_for(role, carried) is None && chosen(role, carried, found) is None,
        !role.recognised() ==> search_for(role, carried) is None && chosen(role, carried, found)
            is None,
{
}

} // verus!
