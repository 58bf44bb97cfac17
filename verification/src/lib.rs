//! A verified task store: each owner identifier has an independent, ordered
//! collection of task records, with operations to append a task, remove the
//! first task carrying a given title, and list the collection.

mod account;
mod laws;
mod search;
mod store;
mod task;

pub use account::AccountId;
pub use laws::lemma_remove_absent_title;
pub use laws::lemma_remove_first_match;
pub use laws::lemma_remove_missing_is_noop;
pub use laws::lemma_remove_on_untouched;
pub use laws::lemma_two_adds_preserve_order;
pub use search::first_index_of;
pub use search::lemma_first_index_of;
pub use search::lemma_first_index_of_is;
pub use store::Tasks;
pub use task::remove_first_titled;
pub use task::task_views;
pub use task::titles_of;
pub use task::Task;
pub use task::TaskState;
pub use task::TaskView;
