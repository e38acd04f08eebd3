//! The tasks of the submitted jobs and the states they go through. A task is queued, then
//! runs on one executor, then is completed or failed. Both scheduling policies move tasks
//! through these states by the same operations.

use vstd::prelude::*;
use vstd::string::StringExecFns;

use crate::error::{HetuError, HetuErrorView};
use crate::registration::ExecutorRegistration;
use crate::text::equal;

verus! {

/// The state of a task.
#[derive(Clone, Copy, Debug, PartialEq, Eq, Structural)]
pub enum TaskStatus {
    /// Ready to run; no executor has it.
    Queued,
    /// Running on one executor.
    Running,
    /// Ran to its end.
    Completed,
    /// Ran and failed.
    Failed,
}

impl TaskStatus {
    /// Whether a task in this state will never run again.
    pub open spec fn is_terminal(self) -> bool {
        self == TaskStatus::Completed || self == TaskStatus::Failed
    }

    /// Whether a task can move from this state to `next` in one step.
    pub open spec fn can_become(self, next: TaskStatus) -> bool {
        ||| self == TaskStatus::Queued && next == TaskStatus::Running
        ||| self == TaskStatus::Running && next.is_terminal()
    }
}

/// The key of a task: the job, the stage of the job's plan, and the partition of the stage.
#[derive(Debug, PartialEq, Eq)]
pub struct TaskKey {
    pub job_id: String,
    pub stage_id: u32,
    pub partition_id: u32,
}

/// A task key as mathematical data.
pub struct TaskId {
    pub job: Seq<char>,
    pub stage: u32,
    pub partition: u32,
}

impl View for TaskKey {
    type V = TaskId;

    open spec fn view(&self) -> TaskId {
        TaskId { job: self.job_id@, stage: self.stage_id, partition: self.partition_id }
    }
}

impl Clone for TaskKey {
    fn clone(&self) -> (r: Self)
        ensures
            r == *self,
    {
        TaskKey {
            job_id: self.job_id.clone(),
            stage_id: self.stage_id,
            partition_id: self.partition_id,
        }
    }
}

impl TaskKey {
    /// Whether two keys name the same task.
    pub fn same(&self, other: &TaskKey) -> (r: bool)
        ensures
            r == (self@ == other@),
    {
        self.job_id == other.job_id && self.stage_id == other.stage_id && self.partition_id
            == other.partition_id
    }
}

/// What the scheduler records of a task.
#[derive(Debug, PartialEq, Eq)]
pub struct TaskRecord {
    pub key: TaskKey,
    pub status: TaskStatus,
    /// The executor that runs the task, or ran it. `None` while the task is queued.
    pub executor: Option<String>,
}

/// A task record as mathematical data.
pub struct TaskEntry {
    pub id: TaskId,
    pub status: TaskStatus,
    pub executor: Option<Seq<char>>,
}

impl View for TaskRecord {
    type V = TaskEntry;

    open spec fn view(&self) -> TaskEntry {
        TaskEntry {
            id: self.key@,
            status: self.status,
            executor: match self.executor {
                Some(e) => Some(e@),
                None => None,
            },
        }
    }
}

/// Whether some record is kept under the key.
pub open spec fn is_known(entries: Seq<TaskEntry>, id: TaskId) -> bool {
    exists|i: int| 0 <= i < entries.len() && #[trigger] entries[i].id == id
}

/// The record kept under a key.
pub open spec fn entry_of(entries: Seq<TaskEntry>, id: TaskId) -> TaskEntry
    recommends
        is_known(entries, id),
{
    entries[choose|i: int| 0 <= i < entries.len() && #[trigger] entries[i].id == id]
}

/// Whether a task is known and in the given state.
pub open spec fn has_status(entries: Seq<TaskEntry>, id: TaskId, status: TaskStatus) -> bool {
    is_known(entries, id) && entry_of(entries, id).status == status
}

/// Whether a task runs on the given executor.
pub open spec fn runs_on(entries: Seq<TaskEntry>, id: TaskId, executor: Seq<char>) -> bool {
    has_status(entries, id, TaskStatus::Running) && entry_of(entries, id).executor == Some(
        executor,
    )
}

/// The records after the task under `id` has moved to `status` on `executor`. The other
/// records stay as they are.
pub open spec fn moved(
    entries: Seq<TaskEntry>,
    id: TaskId,
    status: TaskStatus,
    executor: Seq<char>,
) -> Seq<TaskEntry> {
    Seq::new(
        entries.len(),
        |i: int|
            if entries[i].id == id {
                TaskEntry { id, status, executor: Some(executor) }
            } else {
                entries[i]
            },
    )
}

/// No key has two records.
pub open spec fn keys_are_distinct(entries: Seq<TaskEntry>) -> bool {
    forall|i: int, j: int|
        0 <= i < j < entries.len() ==> #[trigger] entries[i].id != #[trigger] entries[j].id
}

/// No key has two running records.
pub open spec fn at_most_one_running(entries: Seq<TaskEntry>) -> bool {
    forall|i: int, j: int|
        0 <= i < j < entries.len() && #[trigger] entries[i].id == #[trigger] entries[j].id ==> !(
        entries[i].status == TaskStatus::Running && entries[j].status == TaskStatus::Running)
}

/// A record has an executor exactly when its task has left the queue.
pub open spec fn executors_are_recorded(entries: Seq<TaskEntry>) -> bool {
    forall|i: int|
        0 <= i < entries.len() ==> ((#[trigger] entries[i]).status == TaskStatus::Queued
            <==> entries[i].executor is None)
}

/// The position of the task that has waited longest in the queue, or the number of records
/// where no task is queued.
pub open spec fn first_queued(entries: Seq<TaskEntry>) -> int
    decreases entries.len(),
{
    if entries.len() == 0 {
        0
    } else if entries[0].status == TaskStatus::Queued {
        0
    } else {
        1 + first_queued(entries.drop_first())
    }
}

/// Whether `after` comes from `before` by steps along the states of a task: the keys
/// stay, in their order, and each task keeps its state or has moved to a state that can
/// follow it.
pub open spec fn follows(before: Seq<TaskEntry>, after: Seq<TaskEntry>) -> bool {
    &&& after.len() == before.len()
    &&& forall|i: int|
        0 <= i < before.len() ==> {
            &&& (#[trigger] after[i]).id == before[i].id
            &&& (after[i].status == before[i].status || before[i].status.can_become(
                after[i].status,
            ))
        }
}

/// The number of tasks that run on an executor.
pub open spec fn running_on(entries: Seq<TaskEntry>, executor: Seq<char>) -> nat
    decreases entries.len(),
{
    if entries.len() == 0 {
        0
    } else {
        let earlier = running_on(entries.drop_last(), executor);
        if entries.last().status == TaskStatus::Running && entries.last().executor == Some(
            executor,
        ) {
            earlier + 1
        } else {
            earlier
        }
    }
}

/// Where no key has two records, no key has two running records.
pub proof fn running_is_exclusive(entries: Seq<TaskEntry>)
    requires
        keys_are_distinct(entries),
    ensures
        at_most_one_running(entries),
{
}

/// Where no key has two records, the record kept under the key of `entries[i]` is
/// `entries[i]`.
pub proof fn entry_is_found(entries: Seq<TaskEntry>, i: int)
    requires
        keys_are_distinct(entries),
        0 <= i < entries.len(),
    ensures
        is_known(entries, entries[i].id),
        entry_of(entries, entries[i].id) == entries[i],
{
    let k = choose|k: int| 0 <= k < entries.len() && #[trigger] entries[k].id == entries[i].id;
    if k < i {
        assert(entries[k].id != entries[i].id);
    }
    if i < k {
        assert(entries[i].id != entries[k].id);
    }
}

/// A move changes the task that it names and no other: the keys stay, in their order, and
/// every other task keeps its state and its executor.
pub proof fn move_changes_one_task(
    entries: Seq<TaskEntry>,
    id: TaskId,
    status: TaskStatus,
    executor: Seq<char>,
)
    requires
        keys_are_distinct(entries),
        is_known(entries, id),
    ensures
        keys_are_distinct(moved(entries, id, status, executor)),
        entry_of(moved(entries, id, status, executor), id) == (TaskEntry {
            id,
            status,
            executor: Some(executor),
        }),
        forall|other: TaskId|
            other != id ==> (is_known(moved(entries, id, status, executor), other) <==> is_known(
                entries,
                other,
            )),
        forall|other: TaskId|
            other != id && is_known(entries, other) ==> #[trigger] entry_of(
                moved(entries, id, status, executor),
                other,
            ) == entry_of(entries, other),
{
    let after = moved(entries, id, status, executor);
    assert forall|i: int| 0 <= i < entries.len() implies (#[trigger] after[i]).id
        == entries[i].id by {}
    assert(keys_are_distinct(after)) by {
        assert forall|i: int, j: int| 0 <= i < j < after.len() implies #[trigger] after[i].id
            != #[trigger] after[j].id by {
            assert(entries[i].id != entries[j].id);
        }
    }
    let at = choose|i: int| 0 <= i < entries.len() && #[trigger] entries[i].id == id;
    assert(after[at].id == id);
    entry_is_found(after, at);
    assert forall|other: TaskId| other != id implies (is_known(after, other) <==> is_known(
        entries,
        other,
    )) by {
        if is_known(entries, other) {
            let i = choose|i: int| 0 <= i < entries.len() && #[trigger] entries[i].id == other;
            assert(after[i].id == other);
        }
        if is_known(after, other) {
            let i = choose|i: int| 0 <= i < after.len() && #[trigger] after[i].id == other;
            assert(entries[i].id == other);
        }
    }
    assert forall|other: TaskId| other != id && is_known(entries, other) implies #[trigger] entry_of(
        after,
        other,
    ) == entry_of(entries, other) by {
        let i = choose|i: int| 0 <= i < entries.len() && #[trigger] entries[i].id == other;
        assert(after[i] == entries[i]);
        entry_is_found(entries, i);
        entry_is_found(after, i);
    }
}

/// A move of a task to a state that can follow its state is a step along the states of a
/// task: a queued task can only begin to run, a running task can only end, and a task that
/// has ended does not move.
pub proof fn move_follows_the_states(
    entries: Seq<TaskEntry>,
    id: TaskId,
    from: TaskStatus,
    to: TaskStatus,
    executor: Seq<char>,
)
    requires
        keys_are_distinct(entries),
        has_status(entries, id, from),
        from.can_become(to),
    ensures
        follows(entries, moved(entries, id, to, executor)),
{
    let after = moved(entries, id, to, executor);
    assert forall|i: int| 0 <= i < entries.len() implies {
        &&& (#[trigger] after[i]).id == entries[i].id
        &&& (after[i].status == entries[i].status || entries[i].status.can_become(
            after[i].status,
        ))
    } by {
        if entries[i].id == id {
            entry_is_found(entries, i);
        }
    }
}

/// Of two claims of one task only the first succeeds: once a queued task was claimed for
/// an executor it is no longer queued, it runs on that executor, and still no key has two
/// running records. This holds in whichever order two concurrent claims arrive.
pub proof fn second_claim_is_refused(entries: Seq<TaskEntry>, id: TaskId, first: Seq<char>)
    requires
        keys_are_distinct(entries),
        has_status(entries, id, TaskStatus::Queued),
    ensures
        !has_status(moved(entries, id, TaskStatus::Running, first), id, TaskStatus::Queued),
        runs_on(moved(entries, id, TaskStatus::Running, first), id, first),
        at_most_one_running(moved(entries, id, TaskStatus::Running, first)),
{
    move_changes_one_task(entries, id, TaskStatus::Running, first);
    let after = moved(entries, id, TaskStatus::Running, first);
    let at = choose|i: int| 0 <= i < entries.len() && #[trigger] entries[i].id == id;
    assert(after[at].id == id);
}

/// A task that is completed or failed stays so: it is neither queued nor running, so
/// every claim of it and every report for it is refused.
pub proof fn terminal_is_final(entries: Seq<TaskEntry>, id: TaskId, status: TaskStatus)
    requires
        has_status(entries, id, status),
        status.is_terminal(),
    ensures
        !has_status(entries, id, TaskStatus::Queued),
        !has_status(entries, id, TaskStatus::Running),
        forall|executor: Seq<char>| !runs_on(entries, id, executor),
{
}

/// The tasks that a scheduler knows, in the order in which they were submitted.
pub struct TaskTable {
    records: Vec<TaskRecord>,
}

impl View for TaskTable {
    type V = Seq<TaskEntry>;

    closed spec fn view(&self) -> Seq<TaskEntry> {
        Seq::new(self.records@.len(), |i: int| self.records@[i]@)
    }
}

impl TaskTable {
    /// The invariant of the table: no key has two records, and a record has an executor
    /// exactly when its task has left the queue.
    pub open spec fn wf(&self) -> bool {
        keys_are_distinct(self@) && executors_are_recorded(self@)
    }

    /// A table without tasks.
    pub fn new() -> (table: TaskTable)
        ensures
            table.wf(),
            table@.len() == 0,
    {
        TaskTable { records: Vec::new() }
    }

    /// The number of tasks in the table.
    pub fn len(&self) -> (n: usize)
        ensures
            n == self@.len(),
    {
        self.records.len()
    }

    fn position(&self, key: &TaskKey) -> (r: Option<usize>)
        requires
            self.wf(),
        ensures
            match r {
                Some(i) => i < self@.len() && self@[i as int].id == key@ && is_known(
                    self@,
                    key@,
                ) && entry_of(self@, key@) == self@[i as int],
                None => !is_known(self@, key@),
            },
    {
        let mut i: usize = 0;
        while i < self.records.len()
            invariant
                self.wf(),
                i <= self.records.len(),
                forall|j: int| 0 <= j < i ==> self@[j].id != key@,
            decreases self.records.len() - i,
        {
            if self.records[i].key.same(key) {
                assert(self@[i as int].id == key@);
                return Some(i);
            }
            i += 1;
        }
        None
    }

    /// The state of a task, or `None` for a key that the table does not hold.
    pub fn status(&self, key: &TaskKey) -> (r: Option<TaskStatus>)
        requires
            self.wf(),
        ensures
            match r {
                Some(status) => has_status(self@, key@, status),
                None => !is_known(self@, key@),
            },
    {
        match self.position(key) {
            Some(i) => Some(self.records[i].status),
            None => None,
        }
    }

    /// Adds a task to the end of the queue. A key that the table holds already is refused
    /// with an internal error, and the table stays as it is.
    pub fn submit(&mut self, key: TaskKey) -> (r: Result<(), HetuError>)
        requires
            old(self).wf(),
        ensures
            final(self).wf(),
            match r {
                Ok(()) => !is_known(old(self)@, key@) && final(self)@ == old(self)@.push(
                    TaskEntry { id: key@, status: TaskStatus::Queued, executor: None },
                ),
                Err(e) => is_known(old(self)@, key@) && final(self)@ == old(self)@ && e@
                    == HetuErrorView::Internal("task already submitted"@),
            },
    {
        match self.position(&key) {
            Some(_) => Err(HetuError::Internal(String::from_str("task already submitted"))),
            None => {
                let ghost before = self@;
                self.records.push(
                    TaskRecord { key, status: TaskStatus::Queued, executor: None },
                );
                assert(self@ =~= before.push(
                    TaskEntry { id: key@, status: TaskStatus::Queued, executor: None },
                ));
                Ok(())
            },
        }
    }

    fn set(&mut self, i: usize, status: TaskStatus, executor_id: &str)
        requires
            old(self).wf(),
            i < old(self)@.len(),
            status != TaskStatus::Queued,
        ensures
            final(self).wf(),
            final(self)@ == moved(old(self)@, old(self)@[i as int].id, status, executor_id@),
    {
        let ghost before = self@;
        let key = self.records[i].key.clone();
        self.records.set(
            i,
            TaskRecord { key, status, executor: Some(String::from_str(executor_id)) },
        );
        assert(self@ =~= moved(before, before[i as int].id, status, executor_id@));
    }

    /// Claims a queued task for an executor: the task becomes `Running` on it. The claim
    /// succeeds exactly where the task is known and still queued. A claim of a task that
    /// has left the queue, or of an unknown key, is refused with an internal error and
    /// the table stays as it is.
    pub fn claim(&mut self, key: &TaskKey, executor_id: &str) -> (r: Result<(), HetuError>)
        requires
            old(self).wf(),
        ensures
            final(self).wf(),
            follows(old(self)@, final(self)@),
            match r {
                Ok(()) => has_status(old(self)@, key@, TaskStatus::Queued) && final(self)@
                    == moved(old(self)@, key@, TaskStatus::Running, executor_id@),
                Err(e) => !has_status(old(self)@, key@, TaskStatus::Queued) && final(self)@
                    == old(self)@ && e@ == HetuErrorView::Internal("task is not queued"@),
            },
    {
        match self.position(key) {
            Some(i) => {
                if self.records[i].status == TaskStatus::Queued {
                    proof {
                        move_follows_the_states(
                            self@,
                            key@,
                            TaskStatus::Queued,
                            TaskStatus::Running,
                            executor_id@,
                        );
                    }
                    self.set(i, TaskStatus::Running, executor_id);
                    Ok(())
                } else {
                    Err(HetuError::Internal(String::from_str("task is not queued")))
                }
            },
            None => Err(HetuError::Internal(String::from_str("task is not queued"))),
        }
    }

    /// Records the end of a run. It succeeds exactly where the task runs on the executor
    /// that reports; the task then is `Completed`, or `Failed` where `failed` is set. A
    /// report for a task that does not run on that executor is refused with an internal
    /// error and the table stays as it is.
    pub fn finish(&mut self, key: &TaskKey, executor_id: &str, failed: bool) -> (r: Result<
        (),
        HetuError,
    >)
        requires
            old(self).wf(),
        ensures
            final(self).wf(),
            follows(old(self)@, final(self)@),
            match r {
                Ok(()) => runs_on(old(self)@, key@, executor_id@) && final(self)@ == moved(
                    old(self)@,
                    key@,
                    if failed {
                        TaskStatus::Failed
                    } else {
                        TaskStatus::Completed
                    },
                    executor_id@,
                ),
                Err(e) => !runs_on(old(self)@, key@, executor_id@) && final(self)@ == old(
                    self,
                )@ && e@ == HetuErrorView::Internal("task does not run on this executor"@),
            },
    {
        match self.position(key) {
            Some(i) => {
                let owned = match &self.records[i].executor {
                    Some(owner) => equal(owner.as_str(), executor_id),
                    None => false,
                };
                if self.records[i].status == TaskStatus::Running && owned {
                    let status = if failed {
                        TaskStatus::Failed
                    } else {
                        TaskStatus::Completed
                    };
                    proof {
                        move_follows_the_states(
                            self@,
                            key@,
                            TaskStatus::Running,
                            status,
                            executor_id@,
                        );
                    }
                    self.set(i, status, executor_id);
                    Ok(())
                } else {
                    Err(
                        HetuError::Internal(
                            String::from_str("task does not run on this executor"),
                        ),
                    )
                }
            },
            None => Err(
                HetuError::Internal(String::from_str("task does not run on this executor")),
            ),
        }
    }

    /// Counts the tasks that run on an executor.
    pub fn count_running_on(&self, executor_id: &str) -> (n: usize)
        ensures
            n == running_on(self@, executor_id@),
    {
        let mut n: usize = 0;
        let mut i: usize = 0;
        assert(self@.take(0) =~= Seq::<TaskEntry>::empty());
        while i < self.records.len()
            invariant
                i <= self.records.len(),
                n <= i,
                n == running_on(self@.take(i as int), executor_id@),
            decreases self.records.len() - i,
        {
            assert(self@.take(i + 1).drop_last() =~= self@.take(i as int));
            assert(self@.take(i + 1).last() == self@[i as int]);
            let runs_here = match &self.records[i].executor {
                Some(owner) => equal(owner.as_str(), executor_id),
                None => false,
            };
            if self.records[i].status == TaskStatus::Running && runs_here {
                n += 1;
            }
            i += 1;
        }
        assert(self@.take(i as int) =~= self@);
        n
    }

    /// Serves the poll of an executor under the pull policy: claims for it the task that
    /// has waited longest in the queue. `None` where no task is queued.
    pub fn poll_work(&mut self, executor_id: &str) -> (r: Option<TaskKey>)
        requires
            old(self).wf(),
        ensures
            final(self).wf(),
            follows(old(self)@, final(self)@),
            match r {
                Some(key) => {
                    &&& first_queued(old(self)@) < old(self)@.len()
                    &&& key@ == old(self)@[first_queued(old(self)@)].id
                    &&& has_status(old(self)@, key@, TaskStatus::Queued)
                    &&& final(self)@ == moved(
                        old(self)@,
                        key@,
                        TaskStatus::Running,
                        executor_id@,
                    )
                },
                None => first_queued(old(self)@) == old(self)@.len() && final(self)@ == old(
                    self,
                )@,
            },
    {
        self.claim_next(executor_id)
    }

    /// Looks for work to hand to an executor under the push policy: where the executor
    /// runs fewer tasks than it has slots, claims for it the task that has waited longest
    /// in the queue. `None` where the executor has no free slot or no task is queued; the
    /// table then stays as it is.
    pub fn offer_work(&mut self, executor: &ExecutorRegistration) -> (r: Option<TaskKey>)
        requires
            old(self).wf(),
        ensures
            final(self).wf(),
            follows(old(self)@, final(self)@),
            match r {
                Some(key) => {
                    &&& running_on(old(self)@, executor.id@) < executor.task_slots
                    &&& first_queued(old(self)@) < old(self)@.len()
                    &&& key@ == old(self)@[first_queued(old(self)@)].id
                    &&& has_status(old(self)@, key@, TaskStatus::Queued)
                    &&& final(self)@ == moved(
                        old(self)@,
                        key@,
                        TaskStatus::Running,
                        executor.id@,
                    )
                },
                None => {
                    &&& running_on(old(self)@, executor.id@) >= executor.task_slots
                        || first_queued(old(self)@) == old(self)@.len()
                    &&& final(self)@ == old(self)@
                },
            },
    {
        let running = self.count_running_on(executor.id.as_str());
        if running < executor.task_slots as usize {
            self.claim_next(executor.id.as_str())
        } else {
            None
        }
    }

    /// No task has two running records.
    pub proof fn at_most_one_run_per_task(&self)
        requires
            self.wf(),
        ensures
            at_most_one_running(self@),
    {
    }

    /// Claims for an executor the task that has waited longest in the queue, and returns
    /// its key. `None` where no task is queued; the table then stays as it is.
    pub fn claim_next(&mut self, executor_id: &str) -> (r: Option<TaskKey>)
        requires
            old(self).wf(),
        ensures
            final(self).wf(),
            follows(old(self)@, final(self)@),
            match r {
                Some(key) => {
                    &&& first_queued(old(self)@) < old(self)@.len()
                    &&& key@ == old(self)@[first_queued(old(self)@)].id
                    &&& has_status(old(self)@, key@, TaskStatus::Queued)
                    &&& final(self)@ == moved(
                        old(self)@,
                        key@,
                        TaskStatus::Running,
                        executor_id@,
                    )
                },
                None => first_queued(old(self)@) == old(self)@.len() && final(self)@ == old(
                    self,
                )@,
            },
    {
        let mut i: usize = 0;
        assert(self@.skip(0) =~= self@);
        while i < self.records.len()
            invariant
                *self == *old(self),
                self.wf(),
                i <= self.records.len(),
                first_queued(self@) == i + first_queued(self@.skip(i as int)),
            decreases self.records.len() - i,
        {
            let ghost rest = self@.skip(i as int);
            assert(rest[0] == self@[i as int]);
            assert(rest.drop_first() =~= self@.skip(i + 1));
            if self.records[i].status == TaskStatus::Queued {
                let key = self.records[i].key.clone();
                assert(self@[i as int].id == key@);
                proof {
                    let k = choose|k: int| 0 <= k < self@.len() && #[trigger] self@[k].id == key@;
                    assert(k == i);
                    move_follows_the_states(
                        self@,
                        key@,
                        TaskStatus::Queued,
                        TaskStatus::Running,
                        executor_id@,
                    );
                }
                self.set(i, TaskStatus::Running, executor_id);
                return Some(key);
            }
            i += 1;
        }
        None
    }
}

} // verus!
