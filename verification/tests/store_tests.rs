use tasks::AccountId;
use tasks::Task;
use tasks::TaskState;
use tasks::Tasks;

fn owner(b: u8) -> AccountId {
    AccountId { bytes: [b; 32] }
}

fn task(title: &str, description: &str, state: TaskState) -> Task {
    Task { title: title.to_owned(), description: description.to_owned(), state }
}

#[test]
fn default_works() {
    let store = Tasks::default();
    let listed = store.get_task(owner(1));
    assert_eq!(listed, Vec::new());
}

#[test]
fn it_works() {
    let mut store = Tasks::new();
    let user = owner(2);
    assert_eq!(store.get_task(user), Vec::new());
    store.add_task(user, task("Test", "Test", TaskState::Todo));
    assert_eq!(store.get_task(user), vec![task("Test", "Test", TaskState::Todo)]);
}

#[test]
fn untouched_owner_lists_empty() {
    let store = Tasks::new();
    assert_eq!(store.get_task(owner(0)), Vec::new());
    assert_eq!(store.get_task(owner(255)), Vec::new());
}

#[test]
fn add_preserves_order() {
    let mut store = Tasks::new();
    let user = owner(3);
    store.add_task(user, task("first", "one", TaskState::Todo));
    store.add_task(user, task("second", "two", TaskState::Wip));
    assert_eq!(
        store.get_task(user),
        vec![
            task("first", "one", TaskState::Todo),
            task("second", "two", TaskState::Wip),
        ]
    );
}

#[test]
fn remove_on_untouched_owner_is_silent() {
    let mut store = Tasks::new();
    let user = owner(4);
    store.remove_task(user, "anything".to_owned());
    assert_eq!(store.get_task(user), Vec::new());
}

#[test]
fn remove_deletes_first_match_not_a_default() {
    let mut store = Tasks::new();
    let user = owner(5);
    store.add_task(user, task("X", "a", TaskState::Todo));
    store.add_task(user, task("Y", "b", TaskState::Wip));
    store.add_task(user, task("Z", "c", TaskState::Done));
    store.remove_task(user, "X".to_owned());
    assert_eq!(
        store.get_task(user),
        vec![task("Y", "b", TaskState::Wip), task("Z", "c", TaskState::Done)]
    );
}

#[test]
fn remove_takes_first_of_equal_titles() {
    let mut store = Tasks::new();
    let user = owner(6);
    store.add_task(user, task("dup", "first", TaskState::Todo));
    store.add_task(user, task("other", "mid", TaskState::Wip));
    store.add_task(user, task("dup", "second", TaskState::Done));
    store.remove_task(user, "dup".to_owned());
    assert_eq!(
        store.get_task(user),
        vec![
            task("other", "mid", TaskState::Wip),
            task("dup", "second", TaskState::Done),
        ]
    );
}

#[test]
fn remove_missing_title_changes_nothing() {
    let mut store = Tasks::new();
    let user = owner(7);
    store.add_task(user, task("A", "a", TaskState::Todo));
    store.add_task(user, task("B", "b", TaskState::Wip));
    store.remove_task(user, "nonexistent".to_owned());
    assert_eq!(
        store.get_task(user),
        vec![task("A", "a", TaskState::Todo), task("B", "b", TaskState::Wip)]
    );
}

#[test]
fn repeated_removal_of_absent_title_is_idempotent() {
    let mut store = Tasks::new();
    let user = owner(8);
    store.add_task(user, task("keep", "k", TaskState::Todo));
    store.remove_task(user, "gone".to_owned());
    store.remove_task(user, "gone".to_owned());
    assert_eq!(store.get_task(user), vec![task("keep", "k", TaskState::Todo)]);
}

#[test]
fn owners_are_isolated() {
    let mut store = Tasks::new();
    let first = owner(9);
    let second = owner(10);
    store.add_task(first, task("mine", "m", TaskState::Todo));
    assert_eq!(store.get_task(second), Vec::new());
    store.add_task(second, task("yours", "y", TaskState::Wip));
    store.remove_task(first, "mine".to_owned());
    assert_eq!(store.get_task(first), Vec::new());
    assert_eq!(store.get_task(second), vec![task("yours", "y", TaskState::Wip)]);
}

#[test]
fn add_then_remove_round_trip() {
    let mut store = Tasks::new();
    let user = owner(11);
    store.add_task(user, task("Buy milk", "2%", TaskState::Todo));
    assert_eq!(
        store.get_task(user),
        vec![task("Buy milk", "2%", TaskState::Todo)]
    );
    store.remove_task(user, "Buy milk".to_owned());
    assert_eq!(store.get_task(user), Vec::new());
}

#[test]
fn emptied_collection_behaves_like_untouched() {
    let mut store = Tasks::new();
    let user = owner(12);
    store.add_task(user, task("only", "o", TaskState::Done));
    store.remove_task(user, "only".to_owned());
    assert_eq!(store.get_task(user), Vec::new());
    store.add_task(user, task("again", "a", TaskState::Todo));
    assert_eq!(store.get_task(user), vec![task("again", "a", TaskState::Todo)]);
}

#[test]
fn listed_copy_is_not_retroactively_changed() {
    let mut store = Tasks::new();
    let user = owner(13);
    store.add_task(user, task("snapshot", "s", TaskState::Todo));
    let before = store.get_task(user);
    store.remove_task(user, "snapshot".to_owned());
    assert_eq!(before, vec![task("snapshot", "s", TaskState::Todo)]);
    assert_eq!(store.get_task(user), Vec::new());
}

#[test]
fn state_is_stored_verbatim() {
    let mut store = Tasks::new();
    let user = owner(14);
    store.add_task(user, task("t", "todo", TaskState::Todo));
    store.add_task(user, task("w", "wip", TaskState::Wip));
    store.add_task(user, task("d", "done", TaskState::Done));
    let listed = store.get_task(user);
    assert_eq!(listed[0].state, TaskState::Todo);
    assert_eq!(listed[1].state, TaskState::Wip);
    assert_eq!(listed[2].state, TaskState::Done);
}
