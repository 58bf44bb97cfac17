use vstd::prelude::*;

use crate::account::account_eq;
use crate::account::AccountId;
use crate::search::first_index_of;
use crate::search::lemma_first_index_of;
use crate::search::lemma_first_index_of_is;
use crate::task::remove_first_titled;
use crate::task::task_views;
use crate::task::titles_of;
use crate::task::Task;
use crate::task::TaskView;

verus! {

/// One owner's entry: the identifier and that owner's ordered tasks.
struct Entry {
    owner: AccountId,
    tasks: Vec<Task>,
}

/// The owner identifiers of the entries, in order.
spec fn owners_of(es: Seq<Entry>) -> Seq<Seq<u8>> {
    es.map_values(|e: Entry| e.owner@)
}

/// Task storage: a mapping from owner identifier to that owner's ordered
/// collection of tasks. An owner that was never touched and an owner whose
/// collection is empty are indistinguishable through the operations.
pub struct Tasks {
    entries: Vec<Entry>,
}

impl Tasks {
    /// The tasks stored for the owner identified by `o`, in insertion
    /// order; the empty sequence for an owner that was never touched.
    pub closed spec fn tasks_of(self, o: Seq<u8>) -> Seq<TaskView> {
        let i = first_index_of(owners_of(self.entries@), o);
        if i == -1 {
            Seq::empty()
        } else {
            task_views(self.entries@[i].tasks@)
        }
    }

    /// A fresh store: every owner's collection lists empty.
    pub fn new() -> (r: Tasks)
        ensures
            forall|o: Seq<u8>| r.tasks_of(o) == Seq::<TaskView>::empty(),
    {
        Tasks::default()
    }

    /// A fresh store: every owner's collection lists empty.
    pub fn default() -> (r: Tasks)
        ensures
            forall|o: Seq<u8>| r.tasks_of(o) == Seq::<TaskView>::empty(),
    {
        let r = Tasks { entries: Vec::new() };
        proof {
            assert forall|o: Seq<u8>| r.tasks_of(o) == Seq::<TaskView>::empty() by {
                assert(owners_of(r.entries@).len() == 0);
            }
        }
        r
    }

    /// The position of `user`'s entry, or `None` when the owner has none.
    fn find_owner(&self, user: &AccountId) -> (r: Option<usize>)
        ensures
            match r {
                Some(i) => i < self.entries@.len() && first_index_of(
                    owners_of(self.entries@),
                    user@,
                ) == i as int,
                None => first_index_of(owners_of(self.entries@), user@) == -1,
            },
    {
        let mut i: usize = 0;
        while i < self.entries.len()
            invariant
                0 <= i <= self.entries@.len(),
                forall|k: int| 0 <= k < i ==> owners_of(self.entries@)[k] != user@,
            decreases self.entries@.len() - i,
        {
            if account_eq(&self.entries[i].owner, user) {
                proof {
                    lemma_first_index_of_is(owners_of(self.entries@), user@, i as int);
                }
                return Some(i);
            }
            i = i + 1;
        }
        proof {
            lemma_first_index_of(owners_of(self.entries@), user@);
        }
        None
    }

    /// The position of the first task of `ts` titled `title`, or `None`
    /// when no task carries that title.
    fn find_title(ts: &Vec<Task>, title: &String) -> (r: Option<usize>)
        ensures
            match r {
                Some(j) => j < ts@.len() && first_index_of(
                    titles_of(task_views(ts@)),
                    title@,
                ) == j as int,
                None => first_index_of(titles_of(task_views(ts@)), title@) == -1,
            },
    {
        let mut j: usize = 0;
        while j < ts.len()
            invariant
                0 <= j <= ts@.len(),
                forall|k: int| 0 <= k < j ==> titles_of(task_views(ts@))[k] != title@,
            decreases ts@.len() - j,
        {
            if ts[j].title == *title {
                proof {
                    lemma_first_index_of_is(titles_of(task_views(ts@)), title@, j as int);
                }
                return Some(j);
            }
            j = j + 1;
        }
        proof {
            lemma_first_index_of(titles_of(task_views(ts@)), title@);
        }
        None
    }

    /// Appends `task` at the end of `user`'s collection, creating the
    /// collection when the owner has none. Total: it accepts every input.
    /// No other owner's collection changes.
    pub fn add_task(&mut self, user: AccountId, task: Task)
        ensures
            final(self).tasks_of(user@) == old(self).tasks_of(user@).push(task@),
            forall|o: Seq<u8>| o != user@ ==> final(self).tasks_of(o) == old(self).tasks_of(o),
    {
        let ghost es = self.entries@;
        match self.find_owner(&user) {
            Some(i) => {
                self.entries[i].tasks.push(task);
                proof {
                    let es2 = self.entries@;
                    assert(owners_of(es2) =~= owners_of(es));
                    assert(task_views(es2[i as int].tasks@) =~= task_views(
                        es[i as int].tasks@,
                    ).push(task@));
                    assert forall|o: Seq<u8>| o != user@ implies self.tasks_of(o) == old(
                        self,
                    ).tasks_of(o) by {
                        lemma_first_index_of(owners_of(es), o);
                        lemma_first_index_of(owners_of(es), user@);
                    }
                }
            },
            None => {
                let mut ts: Vec<Task> = Vec::new();
                ts.push(task);
                self.entries.push(Entry { owner: user, tasks: ts });
                proof {
                    let es2 = self.entries@;
                    assert(owners_of(es2) =~= owners_of(es).push(user@));
                    lemma_first_index_of(owners_of(es), user@);
                    lemma_first_index_of_is(owners_of(es2), user@, es.len() as int);
                    assert(task_views(es2[es.len() as int].tasks@) =~= Seq::<
                        TaskView,
                    >::empty().push(task@));
                    assert forall|o: Seq<u8>| o != user@ implies self.tasks_of(o) == old(
                        self,
                    ).tasks_of(o) by {
                        lemma_first_index_of(owners_of(es), o);
                        if first_index_of(owners_of(es), o) >= 0 {
                            lemma_first_index_of_is(
                                owners_of(es2),
                                o,
                                first_index_of(owners_of(es), o),
                            );
                        } else {
                            lemma_first_index_of(owners_of(es2), o);
                        }
                    }
                }
            },
        }
    }

    /// Removes the first task of `user`'s collection titled `task_title`,
    /// when one exists; otherwise changes nothing — in particular, a title
    /// that matches no task removes no element. Total: it accepts every
    /// input, and removing an absent title again stays a no-op. No other
    /// owner's collection changes.
    pub fn remove_task(&mut self, user: AccountId, task_title: String)
        ensures
            final(self).tasks_of(user@) == remove_first_titled(
                old(self).tasks_of(user@),
                task_title@,
            ),
            forall|o: Seq<u8>| o != user@ ==> final(self).tasks_of(o) == old(self).tasks_of(o),
    {
        let ghost es = self.entries@;
        match self.find_owner(&user) {
            Some(i) => {
                match Self::find_title(&self.entries[i].tasks, &task_title) {
                    Some(j) => {
                        self.entries[i].tasks.remove(j);
                        proof {
                            let es2 = self.entries@;
                            assert(owners_of(es2) =~= owners_of(es));
                            assert(task_views(es2[i as int].tasks@) =~= task_views(
                                es[i as int].tasks@,
                            ).remove(j as int));
                            assert forall|o: Seq<u8>| o != user@ implies self.tasks_of(o) == old(
                                self,
                            ).tasks_of(o) by {
                                lemma_first_index_of(owners_of(es), o);
                                lemma_first_index_of(owners_of(es), user@);
                            }
                        }
                    },
                    None => {
                    },
                }
            },
            None => {
                proof {
                    assert(titles_of(old(self).tasks_of(user@)).len() == 0);
                }
            },
        }
    }

    /// The full ordered collection of `user`, as a value copy: later
    /// mutation of the store leaves an already-returned copy untouched.
    /// Empty for an owner that was never touched.
    pub fn get_task(&self, user: AccountId) -> (r: Vec<Task>)
        ensures
            task_views(r@) == self.tasks_of(user@),
    {
        match self.find_owner(&user) {
            Some(i) => Self::copy_tasks(&self.entries[i].tasks),
            None => {
                let r: Vec<Task> = Vec::new();
                assert(task_views(r@) =~= self.tasks_of(user@));
                r
            },
        }
    }

    /// An element-by-element copy of a task collection.
    fn copy_tasks(ts: &Vec<Task>) -> (r: Vec<Task>)
        ensures
            r@ == ts@,
    {
        let mut r: Vec<Task> = Vec::new();
        let mut i: usize = 0;
        while i < ts.len()
            invariant
                0 <= i <= ts@.len(),
                r@ =~= ts@.subrange(0, i as int),
            decreases ts@.len() - i,
        {
            r.push(ts[i].clone());
            i = i + 1;
        }
        assert(r@ =~= ts@);
        r
    }
}

impl Default for Tasks {
    /// A fresh store: every owner's collection lists empty.
    fn default() -> (r: Tasks)
        ensures
            forall|o: Seq<u8>| r.tasks_of(o) == Seq::<TaskView>::empty(),
    {
        Tasks::new()
    }
}

} // verus!
