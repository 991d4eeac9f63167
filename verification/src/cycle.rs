//! One agent's turn in a cycle.
//!
//! A turn is a short exchange with the world. `run_creep` is called first
//! with `Report::Nothing`; as long as the directive it returns asks something
//! of the world, the caller does what is asked and calls again with the
//! answer. A directive that asks nothing ends the turn.

use vstd::prelude::*;
use crate::assignment::{
    assign, chosen, first_match, lemma_upgrader_takes_controller, plan_search, search_for, Search,
    Sighting, Want,
};
use crate::basic_tasks::{step_after, Progress, Reason, Step};
use crate::registry::TaskRegistry;
use crate::creep_roles::{get_creep_role, Role};
use crate::task::{ActionError, Agent, Task, TaskStatus};

verus! {

/// What the world has answered so far in an agent's turn.
#[derive(Debug, PartialEq, Eq)]
pub enum Report {
    /// The turn begins.
    Nothing,
    /// The target of the agent's task has been looked up: `true` if it is
    /// still there.
    Resolved(bool),
    /// The action of the agent's task has been attempted on the live target.
    Attempted(Result<(), ActionError>),
    /// The search has been made: what it reported, in the order in which
    /// the world reported it.
    Found(Vec<Sighting>),
}

impl Report {
    /// What the report says about the task at hand. A report that answers
    /// no question about the task says nothing about it.
    pub open spec fn progress(self) -> Progress {
        match self {
            Report::Resolved(alive) => Progress::Resolved(alive),
            Report::Attempted(result) => Progress::Attempted(result),
            _ => Progress::Fresh,
        }
    }

    pub fn as_progress(&self) -> (progress: Progress)
        ensures
            progress == self.progress(),
    {
        match self {
            Report::Resolved(alive) => Progress::Resolved(*alive),
            Report::Attempted(result) => Progress::Attempted(*result),
            _ => Progress::Fresh,
        }
    }
}

/// What the caller is to do for an agent.
#[derive(Clone, Copy, Debug, PartialEq, Eq, Structural)]
pub enum Directive {
    /// The agent takes no part in this cycle: it is still being produced.
    Skip,
    /// Look the task's target up afresh and report `Resolved`.
    Resolve(Task),
    /// Attempt the task's action on its target and report `Attempted`.
    Attempt(Task),
    /// Move the agent toward the task's target. The turn ends; the task
    /// stays in the registry.
    Approach(Task),
    /// The turn ends; the task stays in the registry.
    Keep(Task),
    /// The turn ends; the task has been removed from the registry.
    Release(Task, Reason),
    /// Make the search in the agent's locality and report `Found`.
    Search(Search),
    /// The turn ends; the task has been entered in the registry and is
    /// carried on from the next cycle.
    Assigned(Task),
    /// The turn ends; the agent found nothing to do and stays idle.
    Idle,
    /// Retire the agent: its role reads as unknown. The turn ends.
    Retire,
}

impl Directive {
    /// Whether the directive ends the agent's turn.
    pub open spec fn ends_turn(self) -> bool {
        !(self is Resolve || self is Attempt || self is Search)
    }

    /// The status of the task that the agent held, once its turn has ended.
    pub open spec fn status(self) -> Option<TaskStatus> {
        match self {
            Directive::Approach(_) => Some(TaskStatus::InProgress),
            Directive::Keep(_) => Some(TaskStatus::InProgress),
            Directive::Release(_, _) => Some(TaskStatus::Complete),
            _ => None,
        }
    }

    pub fn is_final(self) -> (yes: bool)
        ensures
            yes == self.ends_turn(),
    {
        match self {
            Directive::Resolve(_) | Directive::Attempt(_) | Directive::Search(_) => false,
            _ => true,
        }
    }

    pub fn task_status(self) -> (status: Option<TaskStatus>)
        ensures
            status == self.status(),
    {
        match self {
            Directive::Approach(_) | Directive::Keep(_) => Some(TaskStatus::InProgress),
            Directive::Release(_, _) => Some(TaskStatus::Complete),
            _ => None,
        }
    }
}

/// The directive for an agent that is committed to `task`.
pub open spec fn engaged_directive(task: Task, agent: Agent, report: Report) -> Directive {
    match step_after(task.ready(agent), report.progress()) {
        Step::Resolve => Directive::Resolve(task),
        Step::Attempt => Directive::Attempt(task),
        Step::Approach => Directive::Approach(task),
        Step::Keep => Directive::Keep(task),
        Step::Release(reason) => Directive::Release(task, reason),
    }
}

/// The directive for an idle agent. An agent of unknown role is retired.
/// Every other agent makes the search of its role and load, if there is
/// one, and takes up what the search offers; it stays idle where there is
/// no search to make or nothing suitable was found.
pub open spec fn idle_directive(agent: Agent, report: Report) -> Directive {
    if !agent.role().recognised() {
        Directive::Retire
    } else {
        match search_for(agent.role(), agent.carried) {
            None => Directive::Idle,
            Some(search) => match report {
                Report::Found(found) => match chosen(agent.role(), agent.carried, found@) {
                    Some(task) => Directive::Assigned(task),
                    None => Directive::Idle,
                },
                _ => Directive::Search(search),
            },
        }
    }
}

/// The directive for an agent, given the registry, what is known of the
/// agent, and what the world has answered so far in its turn.
pub open spec fn directive_for(tasks: Map<Seq<char>, Task>, agent: Agent, report: Report)
    -> Directive {
    if agent.spawning {
        Directive::Skip
    } else if tasks.contains_key(agent.name@) {
        engaged_directive(tasks[agent.name@], agent, report)
    } else {
        idle_directive(agent, report)
    }
}

/// The registry once the directive has been given to the agent of that name:
/// a released task is removed, an assigned task is entered, and nothing
/// else changes.
pub open spec fn tasks_after(tasks: Map<Seq<char>, Task>, name: Seq<char>, directive: Directive)
    -> Map<Seq<char>, Task> {
    match directive {
        Directive::Release(_, _) => tasks.remove(name),
        Directive::Assigned(task) => tasks.insert(name, task),
        _ => tasks,
    }
}

/// Takes one step of an agent's turn.
///
/// An agent that is being produced is skipped. An agent with a task carries
/// it on, and the task leaves the registry when it is released. An idle
/// agent is retired if its role reads as unknown; otherwise it searches
/// and, from what the search reported, takes up a task or stays idle.
pub fn run_creep(agent: &Agent, report: &Report, creep_targets: &mut TaskRegistry) -> (directive:
    Directive)
    ensures
        directive == directive_for(old(creep_targets)@, *agent, *report),
        final(creep_targets)@ == tasks_after(old(creep_targets)@, agent.name@, directive),
{
    if agent.spawning {
        return Directive::Skip;
    }
    match creep_targets.get(agent.name.as_str()) {
        Some(task) => match task.execute(agent, report.as_progress()) {
            Step::Resolve => Directive::Resolve(task),
            Step::Attempt => Directive::Attempt(task),
            Step::Approach => Directive::Approach(task),
            Step::Keep => Directive::Keep(task),
            Step::Release(reason) => {
                creep_targets.remove(agent.name.as_str());
                Directive::Release(task, reason)
            },
        },
        None => {
            let role = get_creep_role(&agent.memory);
            if !role.is_recognised() {
                return Directive::Retire;
            }
            match plan_search(role, agent.carried) {
                None => Directive::Idle,
                Some(search) => match report {
                    Report::Found(found) => match assign(role, agent.carried, found) {
                        Some(task) => {
                            creep_targets.install(agent.name.clone(), task);
                            Directive::Assigned(task)
                        },
                        None => Directive::Idle,
                    },
                    _ => Directive::Search(search),
                },
            }
        },
    }
}

/// A refusal for distance leaves the registry as it was, and the one thing
/// that is asked of the world is to move the agent toward its target.
///
/// The agent is committed to `task` and was ready for it, or the action
/// would not have been attempted.
pub proof fn lemma_out_of_range_keeps_task(tasks: Map<Seq<char>, Task>, agent: Agent, task: Task)
    requires
        !agent.spawning,
        tasks.contains_key(agent.name@),
        tasks[agent.name@] == task,
        task.ready(agent),
    ensures
        ({
            let report = Report::Attempted(Err(ActionError::NotInRange));
            let directive = directive_for(tasks, agent, report);
            &&& directive == Directive::Approach(task)
            &&& directive.ends_turn()
            &&& directive.status() == Some(TaskStatus::InProgress)
            &&& tasks_after(tasks, agent.name@, directive) == tasks
        }),
{
}

/// A target that does not resolve ends the task: the status is `Complete`
/// and the agent's entry leaves the registry, while every other entry
/// stays as it was.
pub proof fn lemma_lost_target_frees_agent(tasks: Map<Seq<char>, Task>, agent: Agent)
    requires
        !agent.spawning,
        tasks.contains_key(agent.name@),
    ensures
        ({
            let directive = directive_for(tasks, agent, Report::Resolved(false));
            let after = tasks_after(tasks, agent.name@, directive);
            &&& directive is Release
            &&& directive.ends_turn()
            &&& directive.status() == Some(TaskStatus::Complete)
            &&& !after.contains_key(agent.name@)
            &&& after == tasks.remove(agent.name@)
            &&& forall|other: Seq<char>|
                other != agent.name@ ==> (after.contains_key(other) <==> tasks.contains_key(other))
                    && (tasks.contains_key(other) ==> after[other] == tasks[other])
        }),
{
}

/// A turn touches no entry but the agent's own, and the agent's entry
/// changes only when its turn ends: it goes with a release, comes with an
/// assignment, and is never swapped for another task.
pub proof fn lemma_turn_touches_own_entry(
    tasks: Map<Seq<char>, Task>,
    agent: Agent,
    report: Report,
)
    ensures
        ({
            let directive = directive_for(tasks, agent, report);
            let after = tasks_after(tasks, agent.name@, directive);
            &&& forall|other: Seq<char>|
                other != agent.name@ ==> (after.contains_key(other) <==> tasks.contains_key(other))
                    && (tasks.contains_key(other) ==> after[other] == tasks[other])
            &&& !directive.ends_turn() ==> after == tasks
            &&& directive is Release <==> tasks.contains_key(agent.name@) && !after.contains_key(
                agent.name@,
            )
            &&& directive is Assigned <==> !tasks.contains_key(agent.name@) && after.contains_key(
                agent.name@,
            )
            &&& tasks.contains_key(agent.name@) && after.contains_key(agent.name@) ==> after[agent.name@]
                == tasks[agent.name@]
        }),
{
}

/// An idle upgrader that carries energy and was shown a controller is
/// committed to an upgrade, aimed at a controller that was shown to it.
pub proof fn lemma_idle_upgrader_is_assigned(
    tasks: Map<Seq<char>, Task>,
    agent: Agent,
    found: Vec<Sighting>,
)
    requires
        !agent.spawning,
        !tasks.contains_key(agent.name@),
        agent.role() == Role::Upgrader,
        agent.carried > 0,
        exists|i: int| 0 <= i < found@.len() && #[trigger] found@[i] is Controller,
    ensures
        ({
            let directive = directive_for(tasks, agent, Report::Found(found));
            let after = tasks_after(tasks, agent.name@, directive);
            &&& directive matches Directive::Assigned(task)
            &&& task is Upgrade
            &&& exists|i: int|
                0 <= i < found@.len() && #[trigger] found@[i] == Sighting::Controller(task.target())
            &&& after.contains_key(agent.name@)
            &&& after[agent.name@] == task
        }),
{
    lemma_upgrader_takes_controller(agent.carried, found@);
}

/// An agent is retired exactly if it takes part in the cycle, has no task,
/// and its role reads as unknown. No other role is ever retired: an idle
/// agent of the reserved role takes up a harvest while it is empty, and
/// stays idle, with the registry as it was, once it carries.
pub proof fn lemma_only_unknown_is_retired(
    tasks: Map<Seq<char>, Task>,
    agent: Agent,
    report: Report,
    found: Vec<Sighting>,
)
    ensures
        directive_for(tasks, agent, report) is Retire <==> (!agent.spawning && !tasks.contains_key(
            agent.name@,
        ) && agent.role() == Role::Unknown),
        !agent.spawning && !tasks.contains_key(agent.name@) && agent.role() == Role::Repairer ==> ({
            let first = directive_for(tasks, agent, Report::Nothing);
            let searched = directive_for(tasks, agent, Report::Found(found));
            if agent.carried == 0 {
                &&& first == Directive::Search(Search::ActiveSources)
                &&& searched == (match first_match(found@, Want::Source) {
                    Some(task) => Directive::Assigned(task),
                    None => Directive::Idle,
                })
            } else {
                &&& first == Directive::Idle
                &&& searched == Directive::Idle
                &&& tasks_after(tasks, agent.name@, first) == tasks
            }
        }),
{
}

/// A turn makes progress and ends. It opens with a lookup, a search, or a
/// directive that ends it. The answer to a lookup is followed by the attempt
/// or by the release of the task; the answer to an attempt and the answer to
/// a search are followed by a directive that ends the turn. So the world is
/// asked at most twice for an agent in a cycle.
pub proof fn lemma_turn_makes_progress(
    tasks: Map<Seq<char>, Task>,
    agent: Agent,
    alive: bool,
    result: Result<(), ActionError>,
    found: Vec<Sighting>,
)
    ensures
        ({
            let first = directive_for(tasks, agent, Report::Nothing);
            let resolved = directive_for(tasks, agent, Report::Resolved(alive));
            let attempted = directive_for(tasks, agent, Report::Attempted(result));
            let searched = directive_for(tasks, agent, Report::Found(found));
            &&& !(first is Attempt)
            &&& first matches Directive::Resolve(task) ==> resolved == (if alive {
                Directive::Attempt(task)
            } else {
                Directive::Release(task, Reason::TargetGone)
            }) && attempted.ends_turn()
            &&& first is Search ==> searched.ends_turn() && (searched is Assigned || searched is Idle)
        }),
{
}

/// An agent that is being produced is skipped: nothing is asked of the
/// world and the registry stays as it was.
pub proof fn lemma_spawning_agent_is_skipped(
    tasks: Map<Seq<char>, Task>,
    agent: Agent,
    report: Report,
)
    requires
        agent.spawning,
    ensures
        directive_for(tasks, agent, report) == Directive::Skip,
        tasks_after(tasks, agent.name@, directive_for(tasks, agent, report)) == tasks,
{
}

} // verus!
