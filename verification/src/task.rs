use vstd::prelude::*;

use crate::search::first_index_of;

verus! {

/// The state of a task. It is supplied by the caller and stored verbatim;
/// the store neither validates it nor moves it through transitions.
#[derive(Clone, Copy, PartialEq, Eq, Debug)]
pub enum TaskState {
    Todo,
    Wip,
    Done,
}

/// A single task record. The title serves as the lookup key for removal
/// within an owner's collection; titles need not be unique.
#[derive(PartialEq, Eq, Debug)]
pub struct Task {
    pub title: String,
    pub description: String,
    pub state: TaskState,
}

/// The mathematical image of a task: its two texts as character sequences,
/// and its state.
#[verifier::ext_equal]
pub ghost struct TaskView {
    pub title: Seq<char>,
    pub description: Seq<char>,
    pub state: TaskState,
}

impl View for Task {
    type V = TaskView;

    open spec fn view(&self) -> TaskView {
        TaskView { title: self.title@, description: self.description@, state: self.state }
    }
}

impl Clone for Task {
    fn clone(&self) -> (r: Self)
        ensures
            r == *self,
    {
        Task {
            title: self.title.clone(),
            description: self.description.clone(),
            state: self.state,
        }
    }
}

/// The views of the tasks of a collection, in order.
pub open spec fn task_views(ts: Seq<Task>) -> Seq<TaskView> {
    ts.map_values(|t: Task| t@)
}

/// The titles of a collection, in order.
pub open spec fn titles_of(ts: Seq<TaskView>) -> Seq<Seq<char>> {
    ts.map_values(|t: TaskView| t.title)
}

/// The collection after removing the first task titled `title`; the
/// collection unchanged when no task carries that title.
pub open spec fn remove_first_titled(ts: Seq<TaskView>, title: Seq<char>) -> Seq<TaskView> {
    let i = first_index_of(titles_of(ts), title);
    if i == -1 {
        ts
    } else {
        ts.remove(i)
    }
}

} // verus!
