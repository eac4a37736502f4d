//! The task supervisor.
//!
//! At most one typing task runs at a time. The supervisor owns the single slot
//! that names the running task. A trigger fills the slot, and only while it is
//! empty; cancellation and the task's own end empty it. Task identifiers are
//! handed out in increasing order and never reused, so a late notice from a
//! task that is no longer in the slot changes nothing.

use vstd::prelude::*;

verus! {

/// Names one typing task.
pub type TaskId = u64;

/// The completion service could not start a stream.
#[derive(Clone, Copy, Debug, PartialEq, Eq, Structural)]
pub struct StreamStartError;

/// Why a trigger started no task.
#[derive(Clone, Copy, Debug, PartialEq, Eq, Structural)]
pub enum TriggerError {
    /// The clipboard could not be read.
    Clipboard,
    /// The completion service could not start a stream.
    StreamStart,
    /// A task is already running.
    Busy,
    /// Every task identifier has been used.
    Exhausted,
}

/// The supervisor as a mathematical value.
pub struct SupervisorModel {
    /// The running task, if any.
    pub slot: Option<TaskId>,
    /// The identifier that the next task will get.
    pub next_id: TaskId,
}

/// One call into the supervisor.
pub enum SupervisorOp {
    /// A trigger, after the attempt to start a stream.
    Trigger {
        /// Whether the stream was started.
        stream_started: bool,
    },
    /// A request to cancel the running task.
    Cancel,
    /// The notice that the given task has ended.
    TaskFinished(TaskId),
}

impl SupervisorModel {
    /// A supervisor that has not started any task.
    pub open spec fn fresh() -> SupervisorModel {
        SupervisorModel { slot: None, next_id: 0 }
    }

    /// The running task is one that was handed out.
    pub open spec fn wf(self) -> bool {
        self.slot matches Some(task) ==> task < self.next_id
    }

    /// The running tasks as a set: empty or a single task.
    pub open spec fn running(self) -> Set<TaskId> {
        match self.slot {
            Some(task) => set![task],
            None => Set::empty(),
        }
    }

    /// Whether a trigger whose stream was started can start a task.
    pub open spec fn can_start(self) -> bool {
        self.slot is None && self.next_id < u64::MAX
    }

    /// The task that `op` starts, if it starts one.
    pub open spec fn started_by(self, op: SupervisorOp) -> Option<TaskId> {
        match op {
            SupervisorOp::Trigger { stream_started } => {
                if stream_started && self.can_start() {
                    Some(self.next_id)
                } else {
                    None
                }
            },
            _ => None,
        }
    }

    /// The task that `op` declares over, if any: the one that a cancellation
    /// takes out of the slot, or the one that is reported finished.
    pub open spec fn ended_by(self, op: SupervisorOp) -> Option<TaskId> {
        match op {
            SupervisorOp::Trigger { .. } => None,
            SupervisorOp::Cancel => self.slot,
            SupervisorOp::TaskFinished(task) => Some(task),
        }
    }

    /// The supervisor after `op`.
    pub open spec fn apply(self, op: SupervisorOp) -> SupervisorModel {
        match op {
            SupervisorOp::Trigger { stream_started } => {
                if stream_started && self.can_start() {
                    SupervisorModel {
                        slot: Some(self.next_id),
                        next_id: (self.next_id + 1) as TaskId,
                    }
                } else {
                    self
                }
            },
            SupervisorOp::Cancel => SupervisorModel { slot: None, ..self },
            SupervisorOp::TaskFinished(task) => {
                if self.slot == Some(task) {
                    SupervisorModel { slot: None, ..self }
                } else {
                    self
                }
            },
        }
    }

    /// The supervisor after all of `ops`, in order.
    pub open spec fn run(self, ops: Seq<SupervisorOp>) -> SupervisorModel
        decreases ops.len(),
    {
        if ops.len() == 0 {
            self
        } else {
            self.run(ops.drop_last()).apply(ops.last())
        }
    }

    /// The tasks that are started and not yet over after all of `ops`, given
    /// that the tasks in `live` were so before.
    ///
    /// This follows what the supervisor tells the outside (a task was started)
    /// and what it is told or decides (a task is over); it does not look at
    /// the slot.
    pub open spec fn live_after(self, live: Set<TaskId>, ops: Seq<SupervisorOp>) -> Set<TaskId>
        decreases ops.len(),
    {
        if ops.len() == 0 {
            live
        } else {
            let before = self.run(ops.drop_last());
            let live_before = self.live_after(live, ops.drop_last());
            match before.started_by(ops.last()) {
                Some(task) => live_before.insert(task),
                None => match before.ended_by(ops.last()) {
                    Some(task) => live_before.remove(task),
                    None => live_before,
                },
            }
        }
    }
}

/// What a trigger returns, given the state before it and the outcome of the
/// attempt to start a stream.
pub open spec fn trigger_outcome(
    before: SupervisorModel,
    stream: Result<(), StreamStartError>,
) -> Result<TaskId, TriggerError> {
    if stream is Err {
        Err(TriggerError::StreamStart)
    } else if before.slot is Some {
        Err(TriggerError::Busy)
    } else if before.next_id == u64::MAX {
        Err(TriggerError::Exhausted)
    } else {
        Ok(before.next_id)
    }
}

/// The owner of the slot that names the running task.
#[derive(Debug)]
pub struct TaskSupervisor {
    slot: Option<TaskId>,
    next_id: TaskId,
}

impl View for TaskSupervisor {
    type V = SupervisorModel;

    closed spec fn view(&self) -> SupervisorModel {
        SupervisorModel { slot: self.slot, next_id: self.next_id }
    }
}

impl TaskSupervisor {
    /// A supervisor with an empty slot.
    pub fn new() -> (supervisor: Self)
        ensures
            supervisor@ == SupervisorModel::fresh(),
            supervisor@.wf(),
    {
        TaskSupervisor { slot: None, next_id: 0 }
    }

    /// A supervisor with an empty slot whose first task gets the identifier
    /// `first`.
    pub fn with_first_id(first: TaskId) -> (supervisor: Self)
        ensures
            supervisor@ == (SupervisorModel { slot: None, next_id: first }),
            supervisor@.wf(),
    {
        TaskSupervisor { slot: None, next_id: first }
    }

    /// The running task, if any.
    pub fn active_task(&self) -> (task: Option<TaskId>)
        ensures
            task == self@.slot,
    {
        self.slot
    }

    /// Whether a task is running.
    pub fn is_active(&self) -> (active: bool)
        ensures
            active == self@.slot is Some,
    {
        self.slot.is_some()
    }

    /// Handles a trigger, once the attempt to start a stream has been made.
    ///
    /// If the stream was started and the slot is empty, a new task is put in
    /// the slot and its identifier returned: the caller runs the pipeline
    /// under that identifier. In every other case the slot is left as it was
    /// and the error says why no task was started.
    pub fn on_trigger(&mut self, stream: Result<(), StreamStartError>) -> (started: Result<
        TaskId,
        TriggerError,
    >)
        ensures
            started == trigger_outcome(old(self)@, stream),
            final(self)@ == old(self)@.apply(SupervisorOp::Trigger { stream_started: stream is Ok }),
            started matches Ok(task) ==> old(self)@.slot is None && final(self)@.slot == Some(task),
            started is Err ==> final(self)@ == old(self)@,
            old(self)@.wf() ==> final(self)@.wf(),
    {
        if stream.is_err() {
            return Err(TriggerError::StreamStart);
        }
        if self.slot.is_some() {
            return Err(TriggerError::Busy);
        }
        if self.next_id == u64::MAX {
            return Err(TriggerError::Exhausted);
        }
        let task = self.next_id;
        self.slot = Some(task);
        self.next_id = task + 1;
        Ok(task)
    }

    /// Handles a request to cancel.
    ///
    /// Takes the running task out of the slot and returns it: the caller asks
    /// that task to stop. With an empty slot nothing changes and nothing is
    /// returned.
    pub fn on_cancel(&mut self) -> (cancelled: Option<TaskId>)
        ensures
            cancelled == old(self)@.slot,
            final(self)@ == old(self)@.apply(SupervisorOp::Cancel),
            final(self)@.slot is None,
            old(self)@.slot is None ==> final(self)@ == old(self)@,
            old(self)@.wf() ==> final(self)@.wf(),
    {
        let cancelled = self.slot;
        self.slot = None;
        cancelled
    }

    /// Handles the notice that `task` has ended.
    ///
    /// Empties the slot if and only if `task` is the task in it, and says
    /// whether it did. A notice from any other task changes nothing.
    pub fn on_task_finished(&mut self, task: TaskId) -> (cleared: bool)
        ensures
            cleared == (old(self)@.slot == Some(task)),
            final(self)@ == old(self)@.apply(SupervisorOp::TaskFinished(task)),
            cleared ==> final(self)@.slot is None,
            !cleared ==> final(self)@ == old(self)@,
            old(self)@.wf() ==> final(self)@.wf(),
    {
        let cleared = match self.slot {
            Some(active) => active == task,
            None => false,
        };
        if cleared {
            self.slot = None;
        }
        cleared
    }
}

/// Every operation keeps the supervisor well formed.
pub proof fn lemma_apply_preserves_wf(s: SupervisorModel, op: SupervisorOp)
    requires
        s.wf(),
    ensures
        s.apply(op).wf(),
{
}

/// Any sequence of operations keeps the supervisor well formed.
pub proof fn lemma_run_preserves_wf(s: SupervisorModel, ops: Seq<SupervisorOp>)
    requires
        s.wf(),
    ensures
        s.run(ops).wf(),
    decreases ops.len(),
{
    if ops.len() > 0 {
        lemma_run_preserves_wf(s, ops.drop_last());
        lemma_apply_preserves_wf(s.run(ops.drop_last()), ops.last());
    }
}

/// The state after the first `k + 1` operations is the state after the first
/// `k`, with operation `k` applied.
pub proof fn lemma_run_step(s: SupervisorModel, ops: Seq<SupervisorOp>, k: int)
    requires
        0 <= k < ops.len(),
    ensures
        s.run(ops.take(k + 1)) == s.run(ops.take(k)).apply(ops[k]),
{
    assert(ops.take(k + 1).drop_last() =~= ops.take(k));
    assert(ops.take(k + 1).last() == ops[k]);
}

/// How the slot can change in one operation.
///
/// It goes from empty to occupied only by a trigger whose stream was started,
/// and from occupied to empty only by a cancellation or by the notice that the
/// task in it has ended. An occupied slot is never given another task.
pub proof fn lemma_slot_transitions(s: SupervisorModel, op: SupervisorOp)
    ensures
        s.slot is None && s.apply(op).slot is Some ==> op == (SupervisorOp::Trigger {
            stream_started: true,
        }),
        s.slot matches Some(task) ==> (s.apply(op).slot is None ==> op == SupervisorOp::Cancel
            || op == SupervisorOp::TaskFinished(task)),
        s.slot is Some && s.apply(op).slot is Some ==> s.apply(op).slot == s.slot,
{
}

/// The slot is never written twice without being emptied in between.
///
/// If the slot holds one task after the first `i` operations and another task
/// after the first `j`, then it was empty at some moment between the two.
pub proof fn lemma_no_overwrite_without_clear(
    s: SupervisorModel,
    ops: Seq<SupervisorOp>,
    i: int,
    j: int,
)
    requires
        0 <= i <= j <= ops.len(),
        s.run(ops.take(i)).slot is Some,
        s.run(ops.take(j)).slot is Some,
        s.run(ops.take(i)).slot != s.run(ops.take(j)).slot,
    ensures
        exists|k: int| i < k < j && (#[trigger] s.run(ops.take(k))).slot is None,
    decreases j - i,
{
    assert(i < j);
    let before = s.run(ops.take(j - 1));
    lemma_run_step(s, ops, j - 1);
    lemma_slot_transitions(before, ops[j - 1]);
    if before.slot is None {
        assert(i < j - 1 < j && s.run(ops.take(j - 1)).slot is None);
    } else {
        lemma_no_overwrite_without_clear(s, ops, i, j - 1);
        let k = choose|k: int| i < k < j - 1 && (#[trigger] s.run(ops.take(k))).slot is None;
        assert(i < k < j && s.run(ops.take(k)).slot is None);
    }
}

/// At most one task is live at any time, and it is the task in the slot.
///
/// Start from a state in which the live tasks are those of the slot, as in a
/// fresh supervisor. After any sequence of triggers, cancellations and notices
/// the tasks that were started and are not yet over are again those of the
/// slot: none if it is empty, and otherwise the one task in it.
pub proof fn lemma_at_most_one_live_task(s: SupervisorModel, ops: Seq<SupervisorOp>)
    ensures
        s.live_after(s.running(), ops) == s.run(ops).running(),
        s.live_after(s.running(), ops).finite(),
        s.live_after(s.running(), ops).len() <= 1,
        s.run(ops).slot is Some <==> s.live_after(s.running(), ops).len() == 1,
    decreases ops.len(),
{
    if ops.len() > 0 {
        lemma_at_most_one_live_task(s, ops.drop_last());
        let before = s.run(ops.drop_last());
        let op = ops.last();
        let live_before = s.live_after(s.running(), ops.drop_last());
        let live = s.live_after(s.running(), ops);
        match before.started_by(op) {
            Some(task) => {
                assert(live =~= set![task]);
            },
            None => {
                match before.ended_by(op) {
                    Some(task) => {
                        if before.slot == Some(task) {
                            assert(live =~= Set::<TaskId>::empty());
                        } else {
                            assert(live =~= live_before);
                        }
                    },
                    None => {
                        assert(live =~= live_before);
                    },
                }
            },
        }
    }
    lemma_running_is_small(s.run(ops));
}

/// The running tasks of a supervisor are at most one.
pub proof fn lemma_running_is_small(s: SupervisorModel)
    ensures
        s.running().finite(),
        s.running().len() <= 1,
        s.slot is Some <==> s.running().len() == 1,
{
    match s.slot {
        Some(task) => {
            assert(s.running() =~= Set::<TaskId>::empty().insert(task));
            assert(s.running().len() == 1);
        },
        None => {},
    }
}

/// The counter of identifiers never goes back.
pub proof fn lemma_next_id_never_decreases(s: SupervisorModel, ops: Seq<SupervisorOp>, i: int, j: int)
    requires
        0 <= i <= j <= ops.len(),
    ensures
        s.run(ops.take(i)).next_id <= s.run(ops.take(j)).next_id,
    decreases j - i,
{
    if i < j {
        lemma_next_id_never_decreases(s, ops, i, j - 1);
        lemma_run_step(s, ops, j - 1);
    }
}

/// No task identifier is handed out twice.
///
/// Of two operations that each start a task, the later one starts a task with
/// a larger identifier.
pub proof fn lemma_task_ids_increase(s: SupervisorModel, ops: Seq<SupervisorOp>, i: int, j: int)
    requires
        0 <= i < j < ops.len(),
        s.run(ops.take(i)).started_by(ops[i]) is Some,
        s.run(ops.take(j)).started_by(ops[j]) is Some,
    ensures
        s.run(ops.take(i)).started_by(ops[i])->0 < s.run(ops.take(j)).started_by(ops[j])->0,
{
    lemma_run_step(s, ops, i);
    lemma_next_id_never_decreases(s, ops, i + 1, j);
}

} // verus!
