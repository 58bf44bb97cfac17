use vstd::prelude::*;

use crate::search::lemma_first_index_of;
use crate::search::lemma_first_index_of_is;
use crate::store::Tasks;
use crate::task::remove_first_titled;
use crate::task::titles_of;
use crate::task::TaskView;

verus! {

/// Appending keeps order: from an owner whose collection lists empty, one
/// `add_task` of `t1` followed by one of `t2` — each step related to the
/// one before it as the contract of `add_task` states — lists exactly
/// `[t1, t2]`.
pub proof fn lemma_two_adds_preserve_order(
    s0: Tasks,
    s1: Tasks,
    s2: Tasks,
    o: Seq<u8>,
    t1: TaskView,
    t2: TaskView,
)
    requires
        s0.tasks_of(o) == Seq::<TaskView>::empty(),
        s1.tasks_of(o) == s0.tasks_of(o).push(t1),
        s2.tasks_of(o) == s1.tasks_of(o).push(t2),
    ensures
        s2.tasks_of(o) == seq![t1, t2],
{
    assert(s2.tasks_of(o) =~= seq![t1, t2]);
}

/// Removal from an owner that was never touched — one whose collection
/// lists empty — leaves the listing empty; `remove_task` has no
/// precondition, so the call cannot fail.
pub proof fn lemma_remove_on_untouched(s0: Tasks, s1: Tasks, o: Seq<u8>, title: Seq<char>)
    requires
        s0.tasks_of(o) == Seq::<TaskView>::empty(),
        s1.tasks_of(o) == remove_first_titled(s0.tasks_of(o), title),
    ensures
        s1.tasks_of(o) == Seq::<TaskView>::empty(),
{
    assert(titles_of(s0.tasks_of(o)).len() == 0);
}

/// Removal deletes the first positional match and nothing else: when only
/// the first of three tasks is titled `x`, removing `x` keeps the other
/// two, in order.
pub proof fn lemma_remove_first_match(a: TaskView, b: TaskView, c: TaskView, x: Seq<char>)
    requires
        a.title == x,
        b.title != x,
        c.title != x,
    ensures
        remove_first_titled(seq![a, b, c], x) == seq![b, c],
{
    let ts = seq![a, b, c];
    lemma_first_index_of_is(titles_of(ts), x, 0);
    assert(ts.remove(0) =~= seq![b, c]);
}

/// Removing a title that no task of the collection carries changes
/// nothing: removal never falls back to deleting the first element.
pub proof fn lemma_remove_absent_title(ts: Seq<TaskView>, title: Seq<char>)
    requires
        forall|k: int| 0 <= k < ts.len() ==> ts[k].title != title,
    ensures
        remove_first_titled(ts, title) == ts,
{
    lemma_first_index_of(titles_of(ts), title);
    assert(forall|k: int| 0 <= k < titles_of(ts).len() ==> titles_of(ts)[k] != title);
}

/// At the store: when no task of `o`'s collection carries `title`, a
/// `remove_task` of `title` — its outcome related to the state before it
/// as the contract of `remove_task` states — leaves the listing unchanged.
pub proof fn lemma_remove_missing_is_noop(s0: Tasks, s1: Tasks, o: Seq<u8>, title: Seq<char>)
    requires
        forall|k: int| 0 <= k < s0.tasks_of(o).len() ==> s0.tasks_of(o)[k].title != title,
        s1.tasks_of(o) == remove_first_titled(s0.tasks_of(o), title),
    ensures
        s1.tasks_of(o) == s0.tasks_of(o),
{
    lemma_remove_absent_title(s0.tasks_of(o), title);
}

} // verus!
