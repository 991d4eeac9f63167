//! The behaviour core of a colony of agents: which task an idle agent takes
//! up, how a task is carried on from one cycle to the next, and which agent
//! the colony produces next.

pub mod creep_roles;
pub mod task;
pub mod basic_tasks;
pub mod assignment;
pub mod registry;
pub mod cycle;
pub mod spawning;
pub mod cleanup;
