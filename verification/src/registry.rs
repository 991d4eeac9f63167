//! The task registry: which agent is committed to which task.

use vstd::prelude::*;
use vstd::hash_map::StringHashMap;
use crate::task::Task;

verus! {

/// The tasks that agents are committed to, by the agent's name. An agent has
/// at most one task; an agent without an entry is idle. The registry lives
/// as long as the process and starts out empty.
pub struct TaskRegistry {
    tasks: StringHashMap<Task>,
}

impl View for TaskRegistry {
    type V = Map<Seq<char>, Task>;

    closed spec fn view(&self) -> Map<Seq<char>, Task> {
        self.tasks@
    }
}

impl TaskRegistry {
    /// A registry in which every agent is idle.
    pub fn new() -> (registry: Self)
        ensures
            registry@ == Map::<Seq<char>, Task>::empty(),
    {
        TaskRegistry { tasks: StringHashMap::new() }
    }

    /// The task that the agent is committed to, or `None` for an idle agent.
    pub fn get(&self, name: &str) -> (task: Option<Task>)
        ensures
            task == (if self@.contains_key(name@) {
                Some(self@[name@])
            } else {
                None
            }),
    {
        match self.tasks.get(name) {
            Some(task) => Some(*task),
            None => None,
        }
    }

    /// Commits the agent to the task, in place of any task it had.
    pub fn install(&mut self, name: String, task: Task)
        ensures
            final(self)@ == old(self)@.insert(name@, task),
    {
        self.tasks.insert(name, task);
    }

    /// Frees the agent. Nothing changes if it was idle.
    pub fn remove(&mut self, name: &str)
        ensures
            final(self)@ == old(self)@.remove(name@),
    {
        self.tasks.remove(name);
    }

    /// How many agents are committed to a task.
    pub fn len(&self) -> (count: usize)
        ensures
            count == self@.len(),
    {
        self.tasks.len()
    }
}

} // verus!
