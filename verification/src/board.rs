//! The task board: one registry for each operation that runs as a task,
//! with JSON values as inputs, prompts, user actions, results and errors.
//!
//! Ids are given out by operation: the same number may name a withdrawal
//! and an activation, and a request reaches only the tasks of the operation
//! that its method names.

use vstd::prelude::*;
use crate::envelope::optional_data;
use crate::json::{
    json_clone, json_data, json_from_map, json_from_str, json_map_insert, json_map_new, JsonData,
};
use crate::router::TaskOperation;
use crate::task::{
    cancel_outcome, finished, report_outcome, resumed, unexpired, user_action_outcome, waiting, Task,
    TaskError, TaskId, TaskRegistry, TaskState,
};

verus! {

/// A task whose payloads are JSON values.
pub type JsonTask = Task<
    serde_json::Value,
    serde_json::Value,
    serde_json::Value,
    serde_json::Value,
    serde_json::Value,
>;

/// The state of such a task.
pub type JsonTaskState = TaskState<serde_json::Value, serde_json::Value, serde_json::Value>;

/// The registry of such tasks.
pub type JsonTaskRegistry = TaskRegistry<
    serde_json::Value,
    serde_json::Value,
    serde_json::Value,
    serde_json::Value,
    serde_json::Value,
>;

/// A task by the content of its payloads.
pub type TaskData = Task<JsonData, JsonData, JsonData, JsonData, JsonData>;

/// The state of a task by the content of its payloads.
pub type TaskStateData = TaskState<JsonData, JsonData, JsonData>;

/// How many operations there are.
pub const OPERATIONS: usize = 16;

/// The place of an operation on the board.
pub open spec fn operation_index(operation: TaskOperation) -> int {
    match operation {
        TaskOperation::AccountBalance => 0,
        TaskOperation::CreateNewAccount => 1,
        TaskOperation::EnableBch => 2,
        TaskOperation::EnableQtum => 3,
        TaskOperation::EnableUtxo => 4,
        TaskOperation::EnableEth => 5,
        TaskOperation::EnableErc20 => 6,
        TaskOperation::EnableTendermint => 7,
        TaskOperation::GetNewAddress => 8,
        TaskOperation::ScanForNewAddresses => 9,
        TaskOperation::InitTrezor => 10,
        TaskOperation::Withdraw => 11,
        TaskOperation::EnableSia => 12,
        TaskOperation::EnableZCoin => 13,
        TaskOperation::EnableLightning => 14,
        TaskOperation::ConnectMetamask => 15,
    }
}

fn index_of(operation: TaskOperation) -> (i: usize)
    ensures
        i == operation_index(operation),
        i < OPERATIONS,
{
    match operation {
        TaskOperation::AccountBalance => 0,
        TaskOperation::CreateNewAccount => 1,
        TaskOperation::EnableBch => 2,
        TaskOperation::EnableQtum => 3,
        TaskOperation::EnableUtxo => 4,
        TaskOperation::EnableEth => 5,
        TaskOperation::EnableErc20 => 6,
        TaskOperation::EnableTendermint => 7,
        TaskOperation::GetNewAddress => 8,
        TaskOperation::ScanForNewAddresses => 9,
        TaskOperation::InitTrezor => 10,
        TaskOperation::Withdraw => 11,
        TaskOperation::EnableSia => 12,
        TaskOperation::EnableZCoin => 13,
        TaskOperation::EnableLightning => 14,
        TaskOperation::ConnectMetamask => 15,
    }
}

/// The state of a task whose payloads are JSON values, by their content.
pub open spec fn state_data(state: JsonTaskState) -> TaskStateData {
    match state {
        TaskState::Running => TaskState::Running,
        TaskState::AwaitingUserAction(prompt) => TaskState::AwaitingUserAction(json_data(prompt)),
        TaskState::Completed(result) => TaskState::Completed(json_data(result)),
        TaskState::Cancelled => TaskState::Cancelled,
        TaskState::Failed(error) => TaskState::Failed(json_data(error)),
    }
}

/// A task whose payloads are JSON values, by their content.
pub open spec fn task_data(task: JsonTask) -> TaskData {
    Task {
        state: state_data(task.state),
        input: optional_data(task.input),
        action: optional_data(task.action),
        finished_at: task.finished_at,
    }
}

/// The tasks of a registry, by the content of their payloads.
pub open spec fn tasks_data(tasks: Map<u64, JsonTask>) -> Map<u64, TaskData> {
    Map::new(|id: u64| tasks.contains_key(id), |id: u64| task_data(tasks[id]))
}

/// The registries of all operations.
pub struct TaskBoard {
    registries: Vec<JsonTaskRegistry>,
}

impl TaskBoard {
    /// Every operation has its registry, and each registry is in order.
    pub closed spec fn wf(&self) -> bool {
        &&& self.registries@.len() == OPERATIONS
        &&& forall|i: int| 0 <= i < OPERATIONS ==> (#[trigger] self.registries@[i]).wf()
    }

    /// The tasks of `operation`, by id.
    pub closed spec fn tasks(&self, operation: TaskOperation) -> Map<u64, TaskData> {
        tasks_data(self.registries@[operation_index(operation)]@)
    }

    /// How many ids `operation` has given out.
    pub closed spec fn issued(&self, operation: TaskOperation) -> u64 {
        self.registries@[operation_index(operation)].issued()
    }

    /// How long the tasks of `operation` are kept once they have ended.
    pub closed spec fn retention(&self, operation: TaskOperation) -> u64 {
        self.registries@[operation_index(operation)].retention()
    }

    /// The state of the task `id` of `operation`, if the board holds it.
    pub open spec fn state_of(&self, operation: TaskOperation, id: u64) -> Option<TaskStateData> {
        if self.tasks(operation).contains_key(id) {
            Some(self.tasks(operation)[id].state)
        } else {
            None
        }
    }

    /// Whether everything but the tasks of `operation` is the same on both
    /// boards.
    pub open spec fn same_but(&self, other: &TaskBoard, operation: TaskOperation) -> bool {
        &&& forall|o: TaskOperation|
            o != operation ==> #[trigger] self.tasks(o) == other.tasks(o) && self.issued(o)
                == other.issued(o)
        &&& forall|o: TaskOperation| #[trigger] self.retention(o) == other.retention(o)
    }

    /// Whether both boards hold the same tasks.
    pub open spec fn same_as(&self, other: &TaskBoard) -> bool {
        forall|o: TaskOperation| #[trigger]
            self.tasks(o) == other.tasks(o) && self.issued(o) == other.issued(o) && self.retention(
                o,
            ) == other.retention(o)
    }

    /// The ids of the tasks of an operation are below the number of ids that
    /// the operation has given out.
    pub proof fn lemma_ids_below_issued(&self, operation: TaskOperation, id: u64)
        requires
            self.wf(),
            self.tasks(operation).contains_key(id),
        ensures
            id < self.issued(operation),
    {
        self.registries@[operation_index(operation)].lemma_ids_below_issued(id);
    }

    /// A board without tasks, on which ended tasks are kept for `retention`
    /// seconds.
    pub fn new(retention: u64) -> (board: TaskBoard)
        ensures
            board.wf(),
            forall|o: TaskOperation| #[trigger] board.tasks(o) == Map::<u64, TaskData>::empty(),
            forall|o: TaskOperation| #[trigger] board.issued(o) == 0,
            forall|o: TaskOperation| #[trigger] board.retention(o) == retention,
    {
        let mut registries: Vec<JsonTaskRegistry> = Vec::new();
        while registries.len() < OPERATIONS
            invariant
                registries@.len() <= OPERATIONS,
                forall|i: int|
                    0 <= i < registries@.len() ==> {
                        &&& (#[trigger] registries@[i]).wf()
                        &&& registries@[i].issued() == 0
                        &&& registries@[i].retention() == retention
                        &&& registries@[i]@ == Map::<u64, JsonTask>::empty()
                    },
            decreases OPERATIONS - registries@.len(),
        {
            registries.push(TaskRegistry::new(retention));
        }
        let board = TaskBoard { registries };
        proof {
            assert forall|o: TaskOperation| #[trigger]
                board.tasks(o) == Map::<u64, TaskData>::empty() by {
                assert(board.tasks(o) =~= Map::<u64, TaskData>::empty());
            }
        }
        board
    }

    /// Whether `operation` can take another task.
    pub fn can_create(&self, operation: TaskOperation) -> (r: bool)
        requires
            self.wf(),
        ensures
            r == (self.issued(operation) < u64::MAX),
    {
        self.registries[index_of(operation)].can_create()
    }

    /// Registers a new task of `operation`, running, with `input` kept for
    /// the operation to claim.
    pub fn create(&mut self, operation: TaskOperation, input: serde_json::Value) -> (id: TaskId)
        requires
            old(self).wf(),
            old(self).issued(operation) < u64::MAX,
        ensures
            final(self).wf(),
            final(self).same_but(old(self), operation),
            id.0 == old(self).issued(operation),
            final(self).issued(operation) == old(self).issued(operation) + 1,
            !old(self).tasks(operation).contains_key(id.0),
            final(self).tasks(operation) == old(self).tasks(operation).insert(
                id.0,
                Task {
                    state: TaskState::Running,
                    input: Some(json_data(input)),
                    action: None,
                    finished_at: None,
                },
            ),
    {
        let i = index_of(operation);
        let id = self.registries[i].create(input);
        proof {
            assert(final(self).tasks(operation) =~= old(self).tasks(operation).insert(
                id.0,
                Task {
                    state: TaskState::Running,
                    input: Some(json_data(input)),
                    action: None,
                    finished_at: None,
                },
            ));
        }
        id
    }

    /// Asks the operation behind the task `id` of `operation` to stop.
    pub fn cancel(&mut self, operation: TaskOperation, id: TaskId, now: u64) -> (r: Result<
        (),
        TaskError,
    >)
        requires
            old(self).wf(),
        ensures
            final(self).wf(),
            final(self).same_but(old(self), operation),
            final(self).issued(operation) == old(self).issued(operation),
            r == cancel_outcome(old(self).state_of(operation, id.0)),
            final(self).tasks(operation) == (if r is Ok {
                old(self).tasks(operation).insert(id.0, finished(TaskState::Cancelled, now))
            } else {
                old(self).tasks(operation)
            }),
    {
        let i = index_of(operation);
        let r = self.registries[i].cancel(id, now);
        proof {
            if r is Ok {
                assert(final(self).tasks(operation) =~= old(self).tasks(operation).insert(
                    id.0,
                    finished(TaskState::Cancelled, now),
                ));
            }
        }
        r
    }

    /// Hands `data` to the task `id` of `operation`, which must be waiting
    /// for the user.
    pub fn user_action(&mut self, operation: TaskOperation, id: TaskId, data: serde_json::Value) -> (r:
        Result<(), TaskError>)
        requires
            old(self).wf(),
        ensures
            final(self).wf(),
            final(self).same_but(old(self), operation),
            final(self).issued(operation) == old(self).issued(operation),
            r == user_action_outcome(old(self).state_of(operation, id.0)),
            final(self).tasks(operation) == (if r is Ok {
                old(self).tasks(operation).insert(
                    id.0,
                    resumed(old(self).tasks(operation)[id.0], json_data(data)),
                )
            } else {
                old(self).tasks(operation)
            }),
    {
        let i = index_of(operation);
        let r = self.registries[i].user_action(id, data);
        proof {
            if r is Ok {
                assert(final(self).tasks(operation) =~= old(self).tasks(operation).insert(
                    id.0,
                    resumed(old(self).tasks(operation)[id.0], json_data(data)),
                ));
            }
        }
        r
    }

    /// The operation behind the task `id` of `operation` needs the user.
    pub fn request_user_action(
        &mut self,
        operation: TaskOperation,
        id: TaskId,
        prompt: serde_json::Value,
    ) -> (r: Result<(), TaskError>)
        requires
            old(self).wf(),
        ensures
            final(self).wf(),
            final(self).same_but(old(self), operation),
            final(self).issued(operation) == old(self).issued(operation),
            r == report_outcome(old(self).state_of(operation, id.0)),
            final(self).tasks(operation) == (if r is Ok {
                old(self).tasks(operation).insert(
                    id.0,
                    waiting(old(self).tasks(operation)[id.0], json_data(prompt)),
                )
            } else {
                old(self).tasks(operation)
            }),
    {
        let i = index_of(operation);
        let r = self.registries[i].request_user_action(id, prompt);
        proof {
            if r is Ok {
                assert(final(self).tasks(operation) =~= old(self).tasks(operation).insert(
                    id.0,
                    waiting(old(self).tasks(operation)[id.0], json_data(prompt)),
                ));
            }
        }
        r
    }

    /// The operation behind the task `id` of `operation` has ended with
    /// `result`.
    pub fn complete(
        &mut self,
        operation: TaskOperation,
        id: TaskId,
        result: serde_json::Value,
        now: u64,
    ) -> (r: Result<(), TaskError>)
        requires
            old(self).wf(),
        ensures
            final(self).wf(),
            final(self).same_but(old(self), operation),
            final(self).issued(operation) == old(self).issued(operation),
            r == report_outcome(old(self).state_of(operation, id.0)),
            final(self).tasks(operation) == (if r is Ok {
                old(self).tasks(operation).insert(
                    id.0,
                    finished(TaskState::Completed(json_data(result)), now),
                )
            } else {
                old(self).tasks(operation)
            }),
    {
        let i = index_of(operation);
        let r = self.registries[i].complete(id, result, now);
        proof {
            if r is Ok {
                assert(final(self).tasks(operation) =~= old(self).tasks(operation).insert(
                    id.0,
                    finished(TaskState::Completed(json_data(result)), now),
                ));
            }
        }
        r
    }

    /// The operation behind the task `id` of `operation` has ended with
    /// `error`.
    pub fn fail(
        &mut self,
        operation: TaskOperation,
        id: TaskId,
        error: serde_json::Value,
        now: u64,
    ) -> (r: Result<(), TaskError>)
        requires
            old(self).wf(),
        ensures
            final(self).wf(),
            final(self).same_but(old(self), operation),
            final(self).issued(operation) == old(self).issued(operation),
            r == report_outcome(old(self).state_of(operation, id.0)),
            final(self).tasks(operation) == (if r is Ok {
                old(self).tasks(operation).insert(
                    id.0,
                    finished(TaskState::Failed(json_data(error)), now),
                )
            } else {
                old(self).tasks(operation)
            }),
    {
        let i = index_of(operation);
        let r = self.registries[i].fail(id, error, now);
        proof {
            if r is Ok {
                assert(final(self).tasks(operation) =~= old(self).tasks(operation).insert(
                    id.0,
                    finished(TaskState::Failed(json_data(error)), now),
                ));
            }
        }
        r
    }

    /// Hands the input of the task `id` of `operation` to the operation,
    /// once.
    pub fn claim_input(&mut self, operation: TaskOperation, id: TaskId) -> (input: Option<
        serde_json::Value,
    >)
        requires
            old(self).wf(),
        ensures
            final(self).wf(),
            final(self).same_but(old(self), operation),
            final(self).issued(operation) == old(self).issued(operation),
            optional_data(input) == (if old(self).tasks(operation).contains_key(id.0) {
                old(self).tasks(operation)[id.0].input
            } else {
                None
            }),
            final(self).tasks(operation) == (if old(self).tasks(operation).contains_key(id.0) {
                old(self).tasks(operation).insert(
                    id.0,
                    Task { input: None, ..old(self).tasks(operation)[id.0] },
                )
            } else {
                old(self).tasks(operation)
            }),
    {
        let i = index_of(operation);
        let input = self.registries[i].claim_input(id);
        proof {
            if old(self).tasks(operation).contains_key(id.0) {
                assert(final(self).tasks(operation) =~= old(self).tasks(operation).insert(
                    id.0,
                    Task { input: None, ..old(self).tasks(operation)[id.0] },
                ));
            }
        }
        input
    }

    /// Hands what the user supplied for the task `id` of `operation` to the
    /// operation, once.
    pub fn take_user_action(&mut self, operation: TaskOperation, id: TaskId) -> (action: Option<
        serde_json::Value,
    >)
        requires
            old(self).wf(),
        ensures
            final(self).wf(),
            final(self).same_but(old(self), operation),
            final(self).issued(operation) == old(self).issued(operation),
            optional_data(action) == (if old(self).tasks(operation).contains_key(id.0) {
                old(self).tasks(operation)[id.0].action
            } else {
                None
            }),
            final(self).tasks(operation) == (if old(self).tasks(operation).contains_key(id.0) {
                old(self).tasks(operation).insert(
                    id.0,
                    Task { action: None, ..old(self).tasks(operation)[id.0] },
                )
            } else {
                old(self).tasks(operation)
            }),
    {
        let i = index_of(operation);
        let action = self.registries[i].take_user_action(id);
        proof {
            if old(self).tasks(operation).contains_key(id.0) {
                assert(final(self).tasks(operation) =~= old(self).tasks(operation).insert(
                    id.0,
                    Task { action: None, ..old(self).tasks(operation)[id.0] },
                ));
            }
        }
        action
    }

    /// The state of the task `id` of `operation`, as the caller gets to see
    /// it. The board stays as it is.
    pub fn status(&self, operation: TaskOperation, id: TaskId) -> (r: Result<
        serde_json::Value,
        TaskError,
    >)
        requires
            self.wf(),
        ensures
            match r {
                Ok(report) => self.state_of(operation, id.0) matches Some(state) && json_data(
                    report,
                ) == status_report(state),
                Err(e) => e == TaskError::UnknownTask && self.state_of(operation, id.0) is None,
            },
    {
        match self.registries[index_of(operation)].status(id) {
            Ok(state) => Ok(report(state)),
            Err(e) => Err(e),
        }
    }

    /// Forgets, for every operation, the tasks that ended `retention`
    /// seconds ago or earlier.
    pub fn reap(&mut self, now: u64)
        requires
            old(self).wf(),
        ensures
            final(self).wf(),
            forall|o: TaskOperation| #[trigger]
                final(self).tasks(o) == unexpired(old(self).tasks(o), old(self).retention(o), now),
            forall|o: TaskOperation| #[trigger] final(self).issued(o) == old(self).issued(o),
            forall|o: TaskOperation| #[trigger] final(self).retention(o) == old(self).retention(o),
    {
        let mut i: usize = 0;
        while i < OPERATIONS
            invariant
                i <= OPERATIONS,
                self.registries@.len() == OPERATIONS,
                forall|k: int| 0 <= k < OPERATIONS ==> (#[trigger] self.registries@[k]).wf(),
                forall|k: int|
                    0 <= k < OPERATIONS ==> (#[trigger] self.registries@[k]).issued() == old(
                        self,
                    ).registries@[k].issued() && self.registries@[k].retention() == old(
                        self,
                    ).registries@[k].retention(),
                forall|k: int|
                    0 <= k < i ==> (#[trigger] self.registries@[k])@ == unexpired(
                        old(self).registries@[k]@,
                        old(self).registries@[k].retention(),
                        now,
                    ),
                forall|k: int|
                    i <= k < OPERATIONS ==> (#[trigger] self.registries@[k]) == old(
                        self,
                    ).registries@[k],
            decreases OPERATIONS - i,
        {
            self.registries[i].reap(now);
            i += 1;
        }
        proof {
            assert forall|o: TaskOperation| #[trigger]
                final(self).tasks(o) == unexpired(
                    old(self).tasks(o),
                    old(self).retention(o),
                    now,
                ) by {
                assert(final(self).tasks(o) =~= unexpired(
                    old(self).tasks(o),
                    old(self).retention(o),
                    now,
                ));
            }
        }
    }
}

/// The state of a task as the caller gets to see it: an object with the
/// member `status` and, where the state carries a value, the member
/// `details`.
pub open spec fn status_report(state: TaskStateData) -> JsonData {
    match state {
        TaskState::Running => JsonData::Object(
            Map::<Seq<char>, JsonData>::empty().insert("status"@, JsonData::String("Running"@)),
        ),
        TaskState::AwaitingUserAction(prompt) => JsonData::Object(
            Map::<Seq<char>, JsonData>::empty().insert(
                "status"@,
                JsonData::String("AwaitingUserAction"@),
            ).insert("details"@, prompt),
        ),
        TaskState::Completed(result) => JsonData::Object(
            Map::<Seq<char>, JsonData>::empty().insert(
                "status"@,
                JsonData::String("Completed"@),
            ).insert("details"@, result),
        ),
        TaskState::Cancelled => JsonData::Object(
            Map::<Seq<char>, JsonData>::empty().insert("status"@, JsonData::String("Cancelled"@)),
        ),
        TaskState::Failed(error) => JsonData::Object(
            Map::<Seq<char>, JsonData>::empty().insert(
                "status"@,
                JsonData::String("Failed"@),
            ).insert("details"@, error),
        ),
    }
}

fn report(state: &JsonTaskState) -> (r: serde_json::Value)
    ensures
        json_data(r) == status_report(state_data(*state)),
{
    let mut members = json_map_new();
    match state {
        TaskState::Running => {
            json_map_insert(&mut members, "status", json_from_str("Running"));
        },
        TaskState::AwaitingUserAction(prompt) => {
            json_map_insert(&mut members, "status", json_from_str("AwaitingUserAction"));
            json_map_insert(&mut members, "details", json_clone(prompt));
        },
        TaskState::Completed(result) => {
            json_map_insert(&mut members, "status", json_from_str("Completed"));
            json_map_insert(&mut members, "details", json_clone(result));
        },
        TaskState::Cancelled => {
            json_map_insert(&mut members, "status", json_from_str("Cancelled"));
        },
        TaskState::Failed(error) => {
            json_map_insert(&mut members, "status", json_from_str("Failed"));
            json_map_insert(&mut members, "details", json_clone(error));
        },
    }
    json_from_map(members)
}

} // verus!