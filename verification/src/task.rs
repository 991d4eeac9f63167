//! The data that tasks are made of: handles to world entities, the task an
//! agent is committed to, and what is known of an agent within one cycle.

use vstd::prelude::*;
use crate::creep_roles::{CreepMemory, Role, stored_role};

verus! {

/// A reference to a world entity. It stays valid across cycles as an
/// identifier, but the entity behind it may be gone: it has to be looked up
/// afresh in every cycle, and the lookup may fail. Which kind of entity it
/// refers to is told by the task or sighting that holds it.
#[derive(Clone, Copy, Debug, PartialEq, Eq, Structural)]
pub struct WorldHandle {
    pub id: u128,
}

/// The one action an agent is committed to, with the entity it is aimed at.
/// A task is never changed in place: a new one replaces it.
#[derive(Clone, Copy, Debug, PartialEq, Eq, Structural)]
pub enum Task {
    /// Gather from an energy source.
    Harvest(WorldHandle),
    /// Spend carried energy on a controller.
    Upgrade(WorldHandle),
    /// Spend carried energy on a construction site.
    Build(WorldHandle),
    /// Deliver carried energy to a spawning structure.
    TransferToSpawn(WorldHandle),
    /// Deliver carried energy to an extension structure.
    TransferToExtension(WorldHandle),
}

impl Task {
    /// The entity the task is aimed at.
    pub open spec fn target(self) -> WorldHandle {
        match self {
            Task::Harvest(handle) => handle,
            Task::Upgrade(handle) => handle,
            Task::Build(handle) => handle,
            Task::TransferToSpawn(handle) => handle,
            Task::TransferToExtension(handle) => handle,
        }
    }

    /// A gathering task fills the agent; every other task empties it.
    pub open spec fn gathers(self) -> bool {
        self is Harvest
    }

    /// Whether the agent can work on the task at all in this cycle: a
    /// gathering task needs free capacity, every other task needs carried
    /// energy.
    pub open spec fn ready(self, agent: Agent) -> bool {
        if self.gathers() {
            agent.free > 0
        } else {
            agent.carried > 0
        }
    }

    pub fn handle(&self) -> (handle: WorldHandle)
        ensures
            handle == self.target(),
    {
        match self {
            Task::Harvest(handle) => *handle,
            Task::Upgrade(handle) => *handle,
            Task::Build(handle) => *handle,
            Task::TransferToSpawn(handle) => *handle,
            Task::TransferToExtension(handle) => *handle,
        }
    }

    pub fn is_ready(&self, agent: &Agent) -> (yes: bool)
        ensures
            yes == self.ready(*agent),
    {
        match self {
            Task::Harvest(_) => agent.free > 0,
            _ => agent.carried > 0,
        }
    }
}

/// What is known of one agent at the start of its turn in a cycle.
#[derive(Debug, PartialEq, Eq)]
pub struct Agent {
    /// The agent's identity: stable, and unique among the agents.
    pub name: String,
    /// An agent that is still being produced takes no part in the cycle.
    pub spawning: bool,
    /// How much energy the agent carries.
    pub carried: u32,
    /// How much more energy the agent could take.
    pub free: i32,
    /// The agent's persisted record, `None` if it could not be read.
    pub memory: Option<CreepMemory>,
}

impl Agent {
    /// The role that the agent's persisted record gives it.
    pub open spec fn role(self) -> Role {
        stored_role(self.memory)
    }
}

/// Whether the task an agent holds is over.
#[derive(Clone, Copy, Debug, PartialEq, Eq, Structural)]
pub enum TaskStatus {
    /// The agent is free: the task is dropped and another may be chosen.
    Complete,
    /// The task stays and is carried on in the next cycle.
    InProgress,
}

/// Why the world refused an action.
#[derive(Clone, Copy, Debug, PartialEq, Eq, Structural)]
pub enum ActionError {
    NotOwner,
    NoPath,
    NameExists,
    Busy,
    NotFound,
    NotEnough,
    InvalidTarget,
    Full,
    NotInRange,
    InvalidArgs,
    Tired,
    NoBodypart,
    RclNotEnough,
    GclNotEnough,
}

impl ActionError {
    /// A refusal for distance mends itself once the agent has moved closer.
    /// Every other refusal is final for the task at hand.
    pub open spec fn transient(self) -> bool {
        self is NotInRange
    }

    pub fn is_transient(self) -> (yes: bool)
        ensures
            yes == self.transient(),
    {
        match self {
            ActionError::NotInRange => true,
            _ => false,
        }
    }
}

} // verus!
