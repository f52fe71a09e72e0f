//! The check that a compiled schedule lets no two uses of a buffer get in
//! each other's way.

use crate::schedule::{BufferRef, ProcessorSchedule, Task, TaskView};
use vstd::prelude::*;

verus! {

/// What is wrong with a schedule.
#[derive(Debug, Clone, Copy, PartialEq, Eq, Structural)]
pub enum VerifyScheduleError {
    /// A task writes a buffer that it also reads, or writes it twice.
    BufferAppearsTwiceInSameTask { buffer: BufferRef, task_index: usize },
    /// A task writes a buffer that an earlier task has written and that no
    /// task between the two has read.
    BufferOverwrittenUnread { buffer: BufferRef, first_task_index: usize, second_task_index: usize },
}

/// The task writes the buffer at two of its ports.
pub open spec fn written_twice(t: TaskView, b: BufferRef) -> bool {
    exists|i: int, j: int|
        0 <= i < j < t.writes().len() && #[trigger] t.writes()[i] == b && #[trigger] t.writes()[j]
            == b
}

/// The task writes the buffer and reads it, or writes it twice.
pub open spec fn aliases_within(t: TaskView, b: BufferRef) -> bool {
    (t.reads().contains(b) && t.writes().contains(b)) || written_twice(t, b)
}

/// A task strictly between two tasks reads the buffer.
pub open spec fn read_between(tasks: Seq<TaskView>, i: int, j: int, b: BufferRef) -> bool {
    exists|k: int| i < k < j && #[trigger] tasks[k].reads().contains(b)
}

/// Task `j` writes the buffer over what task `i` has written, and no task
/// between the two has read it.
pub open spec fn overwrites(tasks: Seq<TaskView>, i: int, j: int, b: BufferRef) -> bool {
    &&& 0 <= i < j < tasks.len()
    &&& tasks[i].writes().contains(b)
    &&& tasks[j].writes().contains(b)
    &&& !read_between(tasks, i, j, b)
}

/// No task writes a buffer that it reads or writes twice, and no task writes
/// a buffer over what an earlier task has written and none has read since.
pub open spec fn schedule_sound(tasks: Seq<TaskView>) -> bool {
    &&& forall|k: int, b: BufferRef|
        0 <= k < tasks.len() ==> !#[trigger] aliases_within(tasks[k], b)
    &&& forall|i: int, j: int, b: BufferRef| !#[trigger] overwrites(tasks, i, j, b)
}

/// What an error says is the case in a schedule.
pub open spec fn violation(tasks: Seq<TaskView>, e: VerifyScheduleError) -> bool {
    match e {
        VerifyScheduleError::BufferAppearsTwiceInSameTask { buffer, task_index } => task_index
            < tasks.len() && aliases_within(tasks[task_index as int], buffer),
        VerifyScheduleError::BufferOverwrittenUnread {
            buffer,
            first_task_index,
            second_task_index,
        } => overwrites(tasks, first_task_index as int, second_task_index as int, buffer),
    }
}

fn holds(refs: &Vec<BufferRef>, upto: usize, b: BufferRef) -> (r: bool)
    requires
        upto <= refs@.len(),
    ensures
        r == refs@.take(upto as int).contains(b),
{
    let mut i: usize = 0;
    while i < upto
        invariant
            i <= upto <= refs@.len(),
            forall|j: int| 0 <= j < i ==> refs@[j] != b,
        decreases upto - i,
    {
        if refs[i] == b {
            assert(refs@.take(upto as int)[i as int] == b);
            return true;
        }
        i = i + 1;
    }
    false
}

/// Checks one task for a buffer that it writes and reads, or writes twice.
fn check_task(task: &Task, task_index: usize) -> (res: Result<(), VerifyScheduleError>)
    ensures
        res is Ok <==> forall|b: BufferRef| !#[trigger] aliases_within(task@, b),
        res matches Err(e) ==> e matches VerifyScheduleError::BufferAppearsTwiceInSameTask {
            buffer,
            task_index: k,
        } && k == task_index && aliases_within(task@, buffer),
{
    let reads = task.reads();
    let writes = task.writes();
    let mut i: usize = 0;
    while i < writes.len()
        invariant
            i <= writes@.len(),
            reads@ == task@.reads(),
            writes@ == task@.writes(),
            forall|j: int| 0 <= j < i ==> !reads@.contains(#[trigger] writes@[j]),
            forall|j: int, k: int| 0 <= j < k < i ==> writes@[j] != writes@[k],
        decreases writes@.len() - i,
    {
        let b: BufferRef = writes[i];
        assert(reads@.take(reads@.len() as int) =~= reads@);
        if holds(&reads, reads.len(), b) {
            assert(writes@.contains(b));
            assert(aliases_within(task@, b));
            return Err(VerifyScheduleError::BufferAppearsTwiceInSameTask { buffer: b, task_index });
        }
        if holds(&writes, i, b) {
            proof {
                let head = writes@.take(i as int);
                let j = choose|j: int| 0 <= j < head.len() && head[j] == b;
                assert(writes@[j] == b && writes@[i as int] == b);
                assert(written_twice(task@, b));
                assert(aliases_within(task@, b));
            }
            return Err(VerifyScheduleError::BufferAppearsTwiceInSameTask { buffer: b, task_index });
        }
        proof {
            assert forall|j: int, k: int| 0 <= j < k < i + 1 implies writes@[j] != writes@[k] by {
                if k == i {
                    if writes@[j] == b {
                        assert(writes@.take(i as int)[j] == b);
                    }
                }
            }
        }
        i = i + 1;
    }
    proof {
        assert forall|b: BufferRef| !#[trigger] aliases_within(task@, b) by {
            if task@.reads().contains(b) && task@.writes().contains(b) {
                let j = choose|j: int| 0 <= j < writes@.len() && writes@[j] == b;
                assert(!reads@.contains(writes@[j]));
            }
        }
    }
    Ok(())
}

/// Checks that what task `j` writes to one buffer does not fall on what an
/// earlier task has written there and none has read since.
fn check_write(tasks: &Vec<Task>, j: usize, b: BufferRef) -> (res: Result<(), VerifyScheduleError>)
    requires
        j < tasks@.len(),
        tasks@[j as int]@.writes().contains(b),
    ensures
        res is Ok <==> forall|i: int| !#[trigger] overwrites(crate::schedule::task_views(tasks@), i, j as int, b),
        res matches Err(e) ==> e matches VerifyScheduleError::BufferOverwrittenUnread {
            buffer,
            first_task_index,
            second_task_index,
        } && buffer == b && second_task_index == j && overwrites(
            crate::schedule::task_views(tasks@),
            first_task_index as int,
            j as int,
            b,
        ),
{
    let ghost views = crate::schedule::task_views(tasks@);
    let mut i: usize = j;
    while i > 0
        invariant
            i <= j < tasks@.len(),
            views == crate::schedule::task_views(tasks@),
            views[j as int].writes().contains(b),
            forall|k: int|
                i <= k < j ==> !(#[trigger] views[k]).reads().contains(b) && !views[k].writes().contains(
                    b,
                ),
        decreases i,
    {
        i = i - 1;
        let writes = tasks[i].writes();
        let reads = tasks[i].reads();
        assert(writes@.take(writes@.len() as int) =~= writes@);
        assert(reads@.take(reads@.len() as int) =~= reads@);
        assert(views[i as int] == tasks@[i as int]@);
        if holds(&writes, writes.len(), b) {
            assert(!read_between(views, i as int, j as int, b));
            assert(overwrites(views, i as int, j as int, b));
            return Err(
                VerifyScheduleError::BufferOverwrittenUnread {
                    buffer: b,
                    first_task_index: i,
                    second_task_index: j,
                },
            );
        }
        if holds(&reads, reads.len(), b) {
            proof {
                assert forall|k: int| !#[trigger] overwrites(views, k, j as int, b) by {
                    if 0 <= k < i {
                        assert(views[i as int].reads().contains(b));
                        assert(read_between(views, k, j as int, b));
                    }
                }
            }
            return Ok(());
        }
    }
    Ok(())
}

/// What checks schedules, and counts how many it has checked.
#[derive(Debug)]
pub struct Verifier {
    /// How many schedules were checked.
    checked: u64,
}

impl Verifier {
    /// How many schedules were checked.
    pub closed spec fn count(&self) -> u64 {
        self.checked
    }

    /// A checker that has checked nothing yet.
    pub fn new() -> (v: Self)
        ensures
            v.count() == 0,
    {
        Verifier { checked: 0 }
    }

    /// How many schedules were checked.
    #[verifier::when_used_as_spec(count)]
    pub fn num_checked(&self) -> (n: u64)
        ensures
            n == self.count(),
    {
        self.checked
    }

    /// Checks a schedule. It passes if and only if it is sound; an error
    /// names a task, or two, and a buffer with which something is wrong.
    pub fn verify_schedule_for_race_conditions(&mut self, schedule: &ProcessorSchedule) -> (res: Result<
        (),
        VerifyScheduleError,
    >)
        ensures
            res is Ok <==> schedule_sound(schedule.tasks()),
            res matches Err(e) ==> violation(schedule.tasks(), e),
            final(self).count() == old(self).count().wrapping_add(1),
    {
        self.checked = self.checked.wrapping_add(1);
        verify_tasks(schedule.all_tasks())
    }
}

/// Checks a list of tasks.
pub fn verify_tasks(tasks: &Vec<Task>) -> (res: Result<(), VerifyScheduleError>)
    ensures
        res is Ok <==> schedule_sound(crate::schedule::task_views(tasks@)),
        res matches Err(e) ==> violation(crate::schedule::task_views(tasks@), e),
{
    let ghost views = crate::schedule::task_views(tasks@);
    let mut k: usize = 0;
    while k < tasks.len()
        invariant
            k <= tasks@.len(),
            views == crate::schedule::task_views(tasks@),
            forall|t: int, b: BufferRef| 0 <= t < k ==> !#[trigger] aliases_within(views[t], b),
        decreases tasks@.len() - k,
    {
        assert(views[k as int] == tasks@[k as int]@);
        match check_task(&tasks[k], k) {
            Ok(_) => {},
            Err(e) => {
                return Err(e);
            },
        }
        k = k + 1;
    }
    let mut j: usize = 0;
    while j < tasks.len()
        invariant
            j <= tasks@.len(),
            views == crate::schedule::task_views(tasks@),
            forall|t: int, b: BufferRef|
                0 <= t < tasks@.len() ==> !#[trigger] aliases_within(views[t], b),
            forall|i: int, t: int, b: BufferRef| t < j ==> !#[trigger] overwrites(views, i, t, b),
        decreases tasks@.len() - j,
    {
        let writes = tasks[j].writes();
        assert(views[j as int] == tasks@[j as int]@);
        let mut w: usize = 0;
        while w < writes.len()
            invariant
                w <= writes@.len(),
                j < tasks@.len(),
                views == crate::schedule::task_views(tasks@),
                writes@ == views[j as int].writes(),
                forall|i: int, x: int|
                    0 <= x < w ==> !#[trigger] overwrites(views, i, j as int, writes@[x]),
            decreases writes@.len() - w,
        {
            match check_write(tasks, j, writes[w]) {
                Ok(_) => {},
                Err(e) => {
                    return Err(e);
                },
            }
            w = w + 1;
        }
        proof {
            assert forall|i: int, t: int, b: BufferRef| t < j + 1 implies !#[trigger] overwrites(
                views,
                i,
                t,
                b,
            ) by {
                if t == j && views[j as int].writes().contains(b) {
                    let x = choose|x: int| 0 <= x < writes@.len() && writes@[x] == b;
                    assert(!overwrites(views, i, j as int, writes@[x]));
                }
            }
        }
        j = j + 1;
    }
    Ok(())
}

} // verus!
