//! Carrying a task on within one cycle.
//!
//! The world is asked at most two questions about a task in a cycle: is its
//! target still there, and did the action succeed. The functions here hold
//! the decisions between the questions. Each takes what has been answered so
//! far and says what comes next; the caller does what is said and comes back
//! with the answer, until the step it is given ends the agent's turn.

use vstd::prelude::*;
use crate::task::{ActionError, Agent, Task, TaskStatus};

verus! {

/// What the world has answered about a task so far in this cycle.
#[derive(Clone, Copy, Debug, PartialEq, Eq)]
pub enum Progress {
    /// Nothing has been asked yet.
    Fresh,
    /// The target has been looked up: `true` if it is still there.
    Resolved(bool),
    /// The action has been attempted on the live target.
    Attempted(Result<(), ActionError>),
}

/// Why a task was given up.
#[derive(Clone, Copy, Debug, PartialEq, Eq, Structural)]
pub enum Reason {
    /// The agent cannot work on the task any more: a gatherer is full, a
    /// deliverer is empty.
    NotReady,
    /// The target did not resolve: it has been destroyed or completed.
    TargetGone,
    /// The world refused the action, and not for distance.
    Rejected(ActionError),
}

/// What to do next about a task.
#[derive(Clone, Copy, Debug, PartialEq, Eq, Structural)]
pub enum Step {
    /// Look the target up afresh, and come back with `Progress::Resolved`.
    Resolve,
    /// Attempt the action on the live target, and come back with
    /// `Progress::Attempted`.
    Attempt,
    /// Move the agent toward the target. The turn ends and the task stays.
    /// Nothing counts these moves: a target that stays out of reach is
    /// approached in every cycle, without end.
    Approach,
    /// The turn ends and the task stays.
    Keep,
    /// The turn ends and the task is given up.
    Release(Reason),
}

impl Step {
    /// The task's status once the turn has ended; `None` while the world
    /// still has to be asked.
    pub open spec fn status(self) -> Option<TaskStatus> {
        match self {
            Step::Resolve => None,
            Step::Attempt => None,
            Step::Approach => Some(TaskStatus::InProgress),
            Step::Keep => Some(TaskStatus::InProgress),
            Step::Release(_) => Some(TaskStatus::Complete),
        }
    }

    /// Whether the step ends the agent's turn.
    pub open spec fn ends_turn(self) -> bool {
        self.status() is Some
    }

    /// Whether the step gives the task up.
    pub open spec fn done(self) -> bool {
        self is Release
    }

    pub fn task_status(self) -> (status: Option<TaskStatus>)
        ensures
            status == self.status(),
    {
        match self {
            Step::Resolve => None,
            Step::Attempt => None,
            Step::Approach => Some(TaskStatus::InProgress),
            Step::Keep => Some(TaskStatus::InProgress),
            Step::Release(_) => Some(TaskStatus::Complete),
        }
    }

    pub fn task_done(self) -> (done: bool)
        ensures
            done == self.done(),
            done == (self.status() == Some(TaskStatus::Complete)),
    {
        match self {
            Step::Release(_) => true,
            _ => false,
        }
    }
}

/// The step that follows, for an agent that is `ready` for its task or not,
/// from what the world has answered so far.
///
/// An agent that is not ready gives the task up without asking anything. A
/// ready agent looks the target up and gives the task up if it is gone. It
/// attempts the action on a live target: success keeps the task, a refusal
/// for distance makes the agent move closer and keeps the task, and any
/// other refusal gives the task up.
pub open spec fn step_after(ready: bool, progress: Progress) -> Step {
    if !ready {
        Step::Release(Reason::NotReady)
    } else {
        match progress {
            Progress::Fresh => Step::Resolve,
            Progress::Resolved(false) => Step::Release(Reason::TargetGone),
            Progress::Resolved(true) => Step::Attempt,
            Progress::Attempted(Ok(())) => Step::Keep,
            Progress::Attempted(Err(error)) => if error.transient() {
                Step::Approach
            } else {
                Step::Release(Reason::Rejected(error))
            },
        }
    }
}

/// The one routine behind every kind of task: readiness, lookup, attempt,
/// and the split of the refusals into the one that is retried and those that
/// are not.
pub fn pursue(ready: bool, progress: Progress) -> (step: Step)
    ensures
        step == step_after(ready, progress),
{
    if !ready {
        return Step::Release(Reason::NotReady);
    }
    match progress {
        Progress::Fresh => Step::Resolve,
        Progress::Resolved(alive) => if alive {
            Step::Attempt
        } else {
            Step::Release(Reason::TargetGone)
        },
        Progress::Attempted(result) => match result {
            Ok(()) => Step::Keep,
            Err(error) => if error.is_transient() {
                Step::Approach
            } else {
                Step::Release(Reason::Rejected(error))
            },
        },
    }
}

/// Carries on the upgrade of a controller: the agent needs carried energy.
pub fn upgrade_controller(agent: &Agent, progress: Progress) -> (step: Step)
    ensures
        step == step_after(agent.carried > 0, progress),
{
    pursue(agent.carried > 0, progress)
}

/// Carries on gathering from an energy source: the agent needs free capacity.
pub fn harvest_energy(agent: &Agent, progress: Progress) -> (step: Step)
    ensures
        step == step_after(agent.free > 0, progress),
{
    pursue(agent.free > 0, progress)
}

/// Carries on work at a construction site: the agent needs carried energy.
pub fn build_construction(agent: &Agent, progress: Progress) -> (step: Step)
    ensures
        step == step_after(agent.carried > 0, progress),
{
    pursue(agent.carried > 0, progress)
}

/// Carries on a delivery to a structure that stores energy: the agent needs
/// carried energy.
pub fn transfer_energy(agent: &Agent, progress: Progress) -> (step: Step)
    ensures
        step == step_after(agent.carried > 0, progress),
{
    pursue(agent.carried > 0, progress)
}

impl Task {
    /// The step that follows, whichever variant the task is.
    pub fn execute(&self, agent: &Agent, progress: Progress) -> (step: Step)
        ensures
            step == step_after(self.ready(*agent), progress),
    {
        match self {
            Task::Harvest(_) => harvest_energy(agent, progress),
            Task::Upgrade(_) => upgrade_controller(agent, progress),
            Task::Build(_) => build_construction(agent, progress),
            Task::TransferToSpawn(_) => transfer_energy(agent, progress),
            Task::TransferToExtension(_) => transfer_energy(agent, progress),
        }
    }
}

/// The step that ends the turn when the steps are followed from the start,
/// the target resolves or not as `alive` says, and the action on the live
/// target goes as `result` says.
pub open spec fn last_step(ready: bool, alive: bool, result: Result<(), ActionError>) -> Step {
    let first = step_after(ready, Progress::Fresh);
    if first is Resolve {
        let second = step_after(ready, Progress::Resolved(alive));
        if second is Attempt {
            step_after(ready, Progress::Attempted(result))
        } else {
            second
        }
    } else {
        first
    }
}

/// A turn always ends: after at most two answers the step that is given ends
/// it. The task is given up exactly if the agent is not ready, the target is
/// gone, or the action is refused for another reason than distance; it stays
/// in every other case.
pub proof fn lemma_turn_ends(ready: bool, alive: bool, result: Result<(), ActionError>)
    ensures
        last_step(ready, alive, result).ends_turn(),
        last_step(ready, alive, result).done() <==> (!ready || !alive || (result is Err
            && !result->Err_0.transient())),
        last_step(ready, alive, result) is Approach <==> (ready && alive && result == Err::<
            (),
            ActionError,
        >(ActionError::NotInRange)),
        last_step(ready, alive, result) is Keep <==> (ready && alive && result is Ok),
{
}

/// The world is asked in order and only as far as needed: an action is
/// attempted only by a ready agent on a target that resolved, and the agent
/// moves only after a refusal for distance.
pub proof fn lemma_steps_in_order(ready: bool, progress: Progress)
    ensures
        step_after(ready, progress) is Resolve <==> (ready && progress is Fresh),
        step_after(ready, progress) is Attempt <==> (ready && progress == Progress::Resolved(true)),
        step_after(ready, progress) is Approach <==> (ready && progress == Progress::Attempted(
            Err(ActionError::NotInRange),
        )),
{
}

/// A target that does not resolve ends the task, whoever the agent is.
pub proof fn lemma_target_gone_completes(ready: bool)
    ensures
        step_after(ready, Progress::Resolved(false)).status() == Some(TaskStatus::Complete),
        ready ==> step_after(ready, Progress::Resolved(false)) == Step::Release(Reason::TargetGone),
{
}

} // verus!
