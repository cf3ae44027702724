//! The pure rules of the task store's mutations: which id an appended
//! task gets, and what a removal leaves behind. The store's file I/O
//! lives outside the crate and calls these on the loaded records.

use vstd::prelude::*;

use crate::task::Task;

verus! {

/// The id the store assigns to the next appended task: one past the
/// largest id in use, so ids never repeat within one store file; an
/// empty store starts at 1.
pub fn next_task_id(tasks: &Vec<Task>) -> (r: u64)
    requires
        forall|i: int| 0 <= i < tasks@.len() ==> tasks@[i].id < u64::MAX,
    ensures
        forall|i: int| 0 <= i < tasks@.len() ==> tasks@[i].id < r,
        tasks@.len() == 0 ==> r == 1,
        tasks@.len() > 0 ==> (exists|i: int|
            0 <= i < tasks@.len() && r == tasks@[i].id + 1),
{
    let mut m: u64 = 0;
    let mut idx: usize = 0;
    while idx < tasks.len()
        invariant
            idx <= tasks@.len(),
            forall|i: int| 0 <= i < tasks@.len() ==> tasks@[i].id < u64::MAX,
            forall|j: int| 0 <= j < idx ==> tasks@[j].id <= m,
            idx == 0 ==> m == 0,
            idx > 0 ==> (exists|i: int| 0 <= i < idx && m == tasks@[i].id),
        decreases tasks@.len() - idx,
    {
        if tasks[idx].id > m {
            m = tasks[idx].id;
        }
        idx += 1;
    }
    m + 1
}

/// Remove the task with the given id, as the store does for a delete
/// intent: the first record carrying that id leaves the sequence, and
/// without a match the records are unchanged. Returns whether a task
/// was found and removed.
pub fn remove_task(tasks: &mut Vec<Task>, id: u64) -> (found: bool)
    ensures
        found == (exists|i: int| 0 <= i < old(tasks)@.len() && old(tasks)@[i].id == id),
        !found ==> final(tasks)@ == old(tasks)@,
        found ==> (exists|i: int|
            {
                &&& 0 <= i < old(tasks)@.len()
                &&& old(tasks)@[i].id == id
                &&& (forall|j: int| 0 <= j < i ==> old(tasks)@[j].id != id)
                &&& final(tasks)@ == old(tasks)@.remove(i)
            }),
{
    let mut idx: usize = 0;
    while idx < tasks.len()
        invariant
            idx <= tasks@.len(),
            tasks@ == old(tasks)@,
            forall|j: int| 0 <= j < idx ==> tasks@[j].id != id,
        decreases tasks@.len() - idx,
    {
        if tasks[idx].id == id {
            tasks.remove(idx);
            return true;
        }
        idx += 1;
    }
    false
}

} // verus!
