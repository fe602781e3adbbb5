//! The task registry: the life of long-running operations that outlive the
//! request that started them.
//!
//! A task is created by one request and addressed by its id in later ones.
//! The operation itself runs elsewhere; it reports to the registry what it
//! needs and how it ended, and the registry answers the callers. Time is a
//! number of seconds that the caller supplies.

use vstd::prelude::*;

verus! {

/// The id of a task: given once, never again in the life of a registry.
#[derive(Clone, Copy, Debug, PartialEq, Eq, Structural)]
pub struct TaskId(pub u64);

/// Where a task stands. `P` is what the operation shows when it needs the
/// user, `R` its result and `E` its error.
#[derive(Debug)]
pub enum TaskState<P, R, E> {
    Running,
    AwaitingUserAction(P),
    Completed(R),
    Cancelled,
    Failed(E),
}

impl<P, R, E> TaskState<P, R, E> {
    /// Completed, cancelled and failed tasks never change again.
    pub open spec fn spec_is_terminal(&self) -> bool {
        self is Completed || self is Cancelled || self is Failed
    }

    /// Whether the state is one of the three final ones.
    #[verifier::when_used_as_spec(spec_is_terminal)]
    pub fn is_terminal(&self) -> (r: bool)
        ensures
            r == self.spec_is_terminal(),
    {
        match self {
            TaskState::Completed(_) | TaskState::Cancelled | TaskState::Failed(_) => true,
            _ => false,
        }
    }
}

/// Why the registry refused a call.
#[derive(Clone, Copy, Debug, PartialEq, Eq, Structural)]
pub enum TaskError {
    /// The registry holds no task of that id.
    UnknownTask,
    /// The task has completed, failed or been cancelled.
    AlreadyTerminal,
    /// The task is not waiting for the user.
    NotAwaitingAction,
}

/// One task as the registry holds it. `I` is the input of the operation and
/// `A` what the user supplies when asked.
#[derive(Debug)]
pub struct Task<I, P, A, R, E> {
    /// Where the task stands.
    pub state: TaskState<P, R, E>,
    /// The input, until the operation has claimed it.
    pub input: Option<I>,
    /// What the user supplied last, until the operation has taken it.
    pub action: Option<A>,
    /// When the task reached its final state.
    pub finished_at: Option<u64>,
}

impl<I, P, A, R, E> Task<I, P, A, R, E> {
    /// Whether the task has been in a final state for `retention` seconds or
    /// more at `now`.
    pub open spec fn expired(&self, retention: u64, now: u64) -> bool {
        self.finished_at matches Some(t) && t <= now && now - t >= retention
    }
}

struct Slot<I, P, A, R, E> {
    id: u64,
    task: Task<I, P, A, R, E>,
}

spec fn holds<I, P, A, R, E>(slots: Seq<Slot<I, P, A, R, E>>, id: u64) -> bool {
    exists|i: int| 0 <= i < slots.len() && #[trigger] slots[i].id == id
}

spec fn place<I, P, A, R, E>(slots: Seq<Slot<I, P, A, R, E>>, id: u64) -> int {
    choose|i: int| 0 <= i < slots.len() && #[trigger] slots[i].id == id
}

spec fn distinct<I, P, A, R, E>(slots: Seq<Slot<I, P, A, R, E>>) -> bool {
    forall|i: int, j: int|
        0 <= i < slots.len() && 0 <= j < slots.len() && #[trigger] slots[i].id
            == #[trigger] slots[j].id ==> i == j
}

spec fn tasks_of<I, P, A, R, E>(slots: Seq<Slot<I, P, A, R, E>>) -> Map<
    u64,
    Task<I, P, A, R, E>,
> {
    Map::new(|id: u64| holds(slots, id), |id: u64| slots[place(slots, id)].task)
}

/// Replacing the task of a slot replaces it in the map.
proof fn lemma_replace<I, P, A, R, E>(
    before: Seq<Slot<I, P, A, R, E>>,
    after: Seq<Slot<I, P, A, R, E>>,
    i: int,
)
    requires
        distinct(before),
        0 <= i < before.len(),
        after.len() == before.len(),
        after[i].id == before[i].id,
        forall|k: int| 0 <= k < before.len() && k != i ==> after[k] == before[k],
    ensures
        distinct(after),
        tasks_of(after) == tasks_of(before).insert(before[i].id, after[i].task),
{
    assert forall|k: int| 0 <= k < before.len() implies #[trigger] after[k].id == before[k].id by {}
    assert forall|id: u64| holds(after, id) == holds(before, id) by {
        if holds(before, id) {
            assert(after[place(before, id)].id == id);
        }
        if holds(after, id) {
            assert(before[place(after, id)].id == id);
        }
    }
    assert forall|id: u64| holds(after, id) implies tasks_of(after)[id] == (if id
        == before[i].id {
        after[i].task
    } else {
        tasks_of(before)[id]
    }) by {
        let k = place(after, id);
        let kb = place(before, id);
        assert(before[k].id == id);
        assert(k == kb);
    }
    assert(tasks_of(after) =~= tasks_of(before).insert(before[i].id, after[i].task));
}

/// Appending a slot with a new id adds it to the map.
proof fn lemma_append<I, P, A, R, E>(
    before: Seq<Slot<I, P, A, R, E>>,
    slot: Slot<I, P, A, R, E>,
)
    requires
        distinct(before),
        !holds(before, slot.id),
    ensures
        distinct(before.push(slot)),
        tasks_of(before.push(slot)) == tasks_of(before).insert(slot.id, slot.task),
{
    let after = before.push(slot);
    let last = before.len() as int;
    assert(after[last].id == slot.id);
    assert forall|i: int, j: int|
        0 <= i < after.len() && 0 <= j < after.len() && #[trigger] after[i].id
            == #[trigger] after[j].id implies i == j by {
        if i < last {
            assert(before[i].id == after[i].id);
        }
        if j < last {
            assert(before[j].id == after[j].id);
        }
    }
    assert forall|id: u64| holds(after, id) == (id == slot.id || holds(before, id)) by {
        if holds(before, id) {
            assert(after[place(before, id)].id == id);
        }
        if holds(after, id) {
            let k = place(after, id);
            if k < last {
                assert(before[k].id == id);
            }
        }
    }
    assert forall|id: u64| holds(after, id) implies tasks_of(after)[id] == (if id == slot.id {
        slot.task
    } else {
        tasks_of(before)[id]
    }) by {
        let k = place(after, id);
        if id != slot.id {
            let kb = place(before, id);
            assert(after[kb].id == id);
            assert(k == kb);
        } else {
            assert(k == last);
        }
    }
    assert(tasks_of(after) =~= tasks_of(before).insert(slot.id, slot.task));
}

/// Removing a slot removes its id from the map.
proof fn lemma_remove<I, P, A, R, E>(before: Seq<Slot<I, P, A, R, E>>, i: int)
    requires
        distinct(before),
        0 <= i < before.len(),
    ensures
        distinct(before.remove(i)),
        tasks_of(before.remove(i)) == tasks_of(before).remove(before[i].id),
{
    let after = before.remove(i);
    assert forall|k: int| 0 <= k < after.len() implies #[trigger] after[k] == before[if k < i {
        k
    } else {
        k + 1
    }] by {}
    assert forall|a: int, b: int|
        0 <= a < after.len() && 0 <= b < after.len() && #[trigger] after[a].id
            == #[trigger] after[b].id implies a == b by {
        let a0 = if a < i { a } else { a + 1 };
        let b0 = if b < i { b } else { b + 1 };
        assert(before[a0].id == before[b0].id);
    }
    assert forall|id: u64| holds(after, id) == (id != before[i].id && holds(before, id)) by {
        if holds(before, id) && id != before[i].id {
            let k = place(before, id);
            let k1 = if k < i { k } else { k - 1 };
            assert(after[k1].id == id);
        }
        if holds(after, id) {
            let k = place(after, id);
            let k0 = if k < i { k } else { k + 1 };
            assert(before[k0].id == id);
        }
    }
    assert forall|id: u64| holds(after, id) implies tasks_of(after)[id] == tasks_of(before)[id] by {
        let k = place(after, id);
        let k0 = if k < i { k } else { k + 1 };
        assert(before[k0].id == id);
        assert(place(before, id) == k0);
    }
    assert(tasks_of(after) =~= tasks_of(before).remove(before[i].id));
}

/// The tasks of `tasks` that have not expired at `now`.
pub open spec fn unexpired<I, P, A, R, E>(
    tasks: Map<u64, Task<I, P, A, R, E>>,
    retention: u64,
    now: u64,
) -> Map<u64, Task<I, P, A, R, E>> {
    Map::new(
        |id: u64| tasks.contains_key(id) && !tasks[id].expired(retention, now),
        |id: u64| tasks[id],
    )
}

/// The tasks of one kind of operation, by id.
pub struct TaskRegistry<I, P, A, R, E> {
    retention: u64,
    next_id: u64,
    slots: Vec<Slot<I, P, A, R, E>>,
}

impl<I, P, A, R, E> View for TaskRegistry<I, P, A, R, E> {
    type V = Map<u64, Task<I, P, A, R, E>>;

    /// The tasks that the registry holds, by the number of their id.
    closed spec fn view(&self) -> Map<u64, Task<I, P, A, R, E>> {
        tasks_of(self.slots@)
    }
}

impl<I, P, A, R, E> TaskRegistry<I, P, A, R, E> {
    /// No id is held twice, and every id held was given out before.
    pub closed spec fn wf(&self) -> bool {
        &&& distinct(self.slots@)
        &&& forall|i: int| 0 <= i < self.slots@.len() ==> (#[trigger] self.slots@[i]).id
            < self.next_id
    }

    /// How long a task in a final state is kept, in seconds.
    pub closed spec fn retention(&self) -> u64 {
        self.retention
    }

    /// How many ids the registry has given out; the next id is this number.
    pub closed spec fn issued(&self) -> u64 {
        self.next_id
    }

    /// The state of the task `id`, if the registry holds it.
    pub open spec fn state_of(&self, id: TaskId) -> Option<TaskState<P, R, E>> {
        if self@.contains_key(id.0) {
            Some(self@[id.0].state)
        } else {
            None
        }
    }

    /// Ids that were given out are below `issued`, so an id at or above it
    /// is unknown.
    pub proof fn lemma_ids_below_issued(&self, id: u64)
        requires
            self.wf(),
            self@.contains_key(id),
        ensures
            id < self.issued(),
    {
        assert(self.slots@[place(self.slots@, id)].id == id);
    }

    /// An empty registry that keeps finished tasks for `retention` seconds.
    pub fn new(retention: u64) -> (registry: Self)
        ensures
            registry.wf(),
            registry.retention() == retention,
            registry.issued() == 0,
            registry@ == Map::<u64, Task<I, P, A, R, E>>::empty(),
    {
        let registry = TaskRegistry { retention, next_id: 0, slots: Vec::new() };
        assert(registry@ =~= Map::<u64, Task<I, P, A, R, E>>::empty());
        registry
    }

    /// Whether another id can be given out.
    pub fn can_create(&self) -> (r: bool)
        ensures
            r == (self.issued() < u64::MAX),
    {
        self.next_id < u64::MAX
    }

    fn position(&self, id: u64) -> (r: Option<usize>)
        requires
            self.wf(),
        ensures
            match r {
                Some(i) => i < self.slots@.len() && self.slots@[i as int].id == id
                    && self@.contains_key(id) && self@[id] == self.slots@[i as int].task,
                None => !self@.contains_key(id),
            },
    {
        let mut i: usize = 0;
        while i < self.slots.len()
            invariant
                self.wf(),
                i <= self.slots@.len(),
                forall|k: int| 0 <= k < i ==> self.slots@[k].id != id,
            decreases self.slots@.len() - i,
        {
            if self.slots[i].id == id {
                assert(holds(self.slots@, id));
                assert(place(self.slots@, id) == i);
                return Some(i);
            }
            i += 1;
        }
        None
    }

    /// Registers a new task in state `Running` and keeps its input for the
    /// operation to claim. The id has never been given out before.
    pub fn create(&mut self, input: I) -> (id: TaskId)
        requires
            old(self).wf(),
            old(self).issued() < u64::MAX,
        ensures
            final(self).wf(),
            final(self).retention() == old(self).retention(),
            id.0 == old(self).issued(),
            final(self).issued() == old(self).issued() + 1,
            !old(self)@.contains_key(id.0),
            final(self)@ == old(self)@.insert(
                id.0,
                Task { state: TaskState::Running, input: Some(input), action: None, finished_at: None },
            ),
    {
        let id = self.next_id;
        let slot = Slot {
            id,
            task: Task {
                state: TaskState::Running,
                input: Some(input),
                action: None,
                finished_at: None,
            },
        };
        proof {
            if holds(self.slots@, id) {
                assert(self.slots@[place(self.slots@, id)].id < self.next_id);
            }
            lemma_append(self.slots@, slot);
        }
        self.slots.push(slot);
        self.next_id = id + 1;
        TaskId(id)
    }

    /// The state of the task `id`. Nothing changes, however often it is
    /// asked.
    pub fn status(&self, id: TaskId) -> (r: Result<&TaskState<P, R, E>, TaskError>)
        requires
            self.wf(),
        ensures
            match r {
                Ok(state) => self.state_of(id) == Some(*state),
                Err(e) => e == TaskError::UnknownTask && self.state_of(id) is None,
            },
    {
        match self.position(id.0) {
            Some(i) => Ok(&self.slots[i].state_ref()),
            None => Err(TaskError::UnknownTask),
        }
    }
}

impl<I, P, A, R, E> TaskRegistry<I, P, A, R, E> {
    /// Puts `task` in place of the task in slot `i` and hands the old one
    /// out.
    fn swap_task(&mut self, i: usize, task: Task<I, P, A, R, E>) -> (previous: Task<I, P, A, R, E>)
        requires
            old(self).wf(),
            i < old(self).slots@.len(),
        ensures
            final(self).wf(),
            final(self).retention() == old(self).retention(),
            final(self).issued() == old(self).issued(),
            final(self).slots@.len() == old(self).slots@.len(),
            final(self).slots@[i as int].id == old(self).slots@[i as int].id,
            previous == old(self).slots@[i as int].task,
            final(self)@ == old(self)@.insert(old(self).slots@[i as int].id, task),
    {
        let ghost before = self.slots@;
        let Slot { id, task: previous } = self.slots.remove(i);
        self.slots.insert(i, Slot { id, task });
        proof {
            lemma_replace(before, self.slots@, i as int);
        }
        previous
    }

    /// Asks the operation behind the task `id` to stop. The task is
    /// `Cancelled` from this call on: the operation sees it at its next look
    /// at the registry, and nothing it reports later changes the state.
    pub fn cancel(&mut self, id: TaskId, now: u64) -> (r: Result<(), TaskError>)
        requires
            old(self).wf(),
        ensures
            final(self).wf(),
            final(self).retention() == old(self).retention(),
            final(self).issued() == old(self).issued(),
            r == cancel_outcome(old(self).state_of(id)),
            final(self)@ == (if r is Ok {
                old(self)@.insert(id.0, finished(TaskState::Cancelled, now))
            } else {
                old(self)@
            }),
    {
        match self.position(id.0) {
            None => Err(TaskError::UnknownTask),
            Some(i) => {
                if self.slots[i].state_ref().is_terminal() {
                    Err(TaskError::AlreadyTerminal)
                } else {
                    let _ = self.swap_task(i, finished_task(TaskState::Cancelled, now));
                    Ok(())
                }
            },
        }
    }

    /// Hands `data` to the task `id`, which must be waiting for the user.
    /// The task runs again, and the data waits for the operation to take it.
    pub fn user_action(&mut self, id: TaskId, data: A) -> (r: Result<(), TaskError>)
        requires
            old(self).wf(),
        ensures
            final(self).wf(),
            final(self).retention() == old(self).retention(),
            final(self).issued() == old(self).issued(),
            r == user_action_outcome(old(self).state_of(id)),
            final(self)@ == (if r is Ok {
                old(self)@.insert(id.0, resumed(old(self)@[id.0], data))
            } else {
                old(self)@
            }),
    {
        match self.position(id.0) {
            None => Err(TaskError::UnknownTask),
            Some(i) => {
                let waiting = match self.slots[i].state_ref() {
                    TaskState::AwaitingUserAction(_) => true,
                    _ => false,
                };
                if !waiting {
                    Err(TaskError::NotAwaitingAction)
                } else {
                    let ghost before = self@;
                    let previous = self.swap_task(i, vacant_task());
                    let next = Task {
                        state: TaskState::Running,
                        input: previous.input,
                        action: Some(data),
                        finished_at: None,
                    };
                    let _ = self.swap_task(i, next);
                    assert(self@ =~= before.insert(id.0, next));
                    Ok(())
                }
            },
        }
    }

    /// The operation behind the task `id` needs the user: the task waits,
    /// showing `prompt`.
    pub fn request_user_action(&mut self, id: TaskId, prompt: P) -> (r: Result<(), TaskError>)
        requires
            old(self).wf(),
        ensures
            final(self).wf(),
            final(self).retention() == old(self).retention(),
            final(self).issued() == old(self).issued(),
            r == report_outcome(old(self).state_of(id)),
            final(self)@ == (if r is Ok {
                old(self)@.insert(id.0, waiting(old(self)@[id.0], prompt))
            } else {
                old(self)@
            }),
    {
        match self.position(id.0) {
            None => Err(TaskError::UnknownTask),
            Some(i) => {
                if self.slots[i].state_ref().is_terminal() {
                    Err(TaskError::AlreadyTerminal)
                } else {
                    let ghost before = self@;
                    let previous = self.swap_task(i, vacant_task());
                    let next = Task {
                        state: TaskState::AwaitingUserAction(prompt),
                        input: previous.input,
                        action: previous.action,
                        finished_at: None,
                    };
                    let _ = self.swap_task(i, next);
                    assert(self@ =~= before.insert(id.0, next));
                    Ok(())
                }
            },
        }
    }

    /// The operation behind the task `id` has ended with `result`.
    pub fn complete(&mut self, id: TaskId, result: R, now: u64) -> (r: Result<(), TaskError>)
        requires
            old(self).wf(),
        ensures
            final(self).wf(),
            final(self).retention() == old(self).retention(),
            final(self).issued() == old(self).issued(),
            r == report_outcome(old(self).state_of(id)),
            final(self)@ == (if r is Ok {
                old(self)@.insert(id.0, finished(TaskState::Completed(result), now))
            } else {
                old(self)@
            }),
    {
        self.finish(id, TaskState::Completed(result), now)
    }

    /// The operation behind the task `id` has ended with `error`.
    pub fn fail(&mut self, id: TaskId, error: E, now: u64) -> (r: Result<(), TaskError>)
        requires
            old(self).wf(),
        ensures
            final(self).wf(),
            final(self).retention() == old(self).retention(),
            final(self).issued() == old(self).issued(),
            r == report_outcome(old(self).state_of(id)),
            final(self)@ == (if r is Ok {
                old(self)@.insert(id.0, finished(TaskState::Failed(error), now))
            } else {
                old(self)@
            }),
    {
        self.finish(id, TaskState::Failed(error), now)
    }

    fn finish(&mut self, id: TaskId, state: TaskState<P, R, E>, now: u64) -> (r: Result<
        (),
        TaskError,
    >)
        requires
            old(self).wf(),
        ensures
            final(self).wf(),
            final(self).retention() == old(self).retention(),
            final(self).issued() == old(self).issued(),
            r == report_outcome(old(self).state_of(id)),
            final(self)@ == (if r is Ok {
                old(self)@.insert(id.0, finished(state, now))
            } else {
                old(self)@
            }),
    {
        match self.position(id.0) {
            None => Err(TaskError::UnknownTask),
            Some(i) => {
                if self.slots[i].state_ref().is_terminal() {
                    Err(TaskError::AlreadyTerminal)
                } else {
                    let _ = self.swap_task(i, finished_task(state, now));
                    Ok(())
                }
            },
        }
    }

    /// Forgets every task that has been in a final state for the retention
    /// time or longer at `now`. All other tasks stay as they are.
    pub fn reap(&mut self, now: u64)
        requires
            old(self).wf(),
        ensures
            final(self).wf(),
            final(self).retention() == old(self).retention(),
            final(self).issued() == old(self).issued(),
            final(self)@ == unexpired(old(self)@, old(self).retention(), now),
    {
        let ghost before = self@;
        let ghost retention = self.retention;
        let mut i: usize = self.slots.len();
        while i > 0
            invariant
                self.wf(),
                self.retention == retention,
                self.next_id == old(self).next_id,
                i <= self.slots@.len(),
                forall|id: u64| #[trigger]
                    self@.contains_key(id) ==> before.contains_key(id) && self@[id] == before[id],
                forall|id: u64|
                    before.contains_key(id) && !before[id].expired(retention, now)
                        ==> #[trigger] self@.contains_key(id),
                forall|k: int|
                    i <= k < self.slots@.len() ==> !(#[trigger] self.slots@[k]).task.expired(
                        retention,
                        now,
                    ),
            decreases i,
        {
            i -= 1;
            let expired = match self.slots[i].task.finished_at {
                Some(t) => t <= now && now - t >= self.retention,
                None => false,
            };
            if expired {
                let ghost slots = self.slots@;
                proof {
                    lemma_remove(slots, i as int);
                    assert(holds(slots, slots[i as int].id));
                    assert(place(slots, slots[i as int].id) == i);
                }
                let ghost previous = self@;
                let _ = self.slots.remove(i);
                proof {
                    let gone = slots[i as int].id;
                    assert(self@ == previous.remove(gone));
                    assert(previous.contains_key(gone) && previous[gone] == slots[i as int].task);
                    assert(before[gone].expired(retention, now));
                    assert forall|id: u64| #[trigger] self@.contains_key(id) implies before.contains_key(
                        id,
                    ) && self@[id] == before[id] by {
                        assert(previous.contains_key(id));
                    }
                    assert forall|id: u64|
                        before.contains_key(id) && !before[id].expired(
                            retention,
                            now,
                        ) implies #[trigger] self@.contains_key(id) by {
                        assert(previous.contains_key(id));
                    }
                    assert forall|k: int| i <= k < self.slots@.len() implies !(
                    #[trigger] self.slots@[k]).task.expired(retention, now) by {
                        assert(self.slots@[k] == slots[k + 1]);
                    }
                    assert forall|k: int| 0 <= k < self.slots@.len() implies (
                    #[trigger] self.slots@[k]).id < self.next_id by {
                        assert(self.slots@[k] == slots[if k < i { k } else { k + 1 }]);
                    }
                }
            }
        }
        proof {
            assert forall|id: u64| self@.contains_key(id) implies !self@[id].expired(
                retention,
                now,
            ) by {
                let k = place(self.slots@, id);
                assert(self.slots@[k].id == id);
            }
            assert(self@ =~= unexpired(before, retention, now));
        }
    }

    /// Hands the input of the task `id` to the operation, once.
    pub fn claim_input(&mut self, id: TaskId) -> (input: Option<I>)
        requires
            old(self).wf(),
        ensures
            final(self).wf(),
            final(self).retention() == old(self).retention(),
            final(self).issued() == old(self).issued(),
            input == (if old(self)@.contains_key(id.0) {
                old(self)@[id.0].input
            } else {
                None
            }),
            final(self)@ == (if old(self)@.contains_key(id.0) {
                old(self)@.insert(id.0, Task { input: None, ..old(self)@[id.0] })
            } else {
                old(self)@
            }),
    {
        match self.position(id.0) {
            None => None,
            Some(i) => {
                let ghost before = self@;
                let previous = self.swap_task(i, vacant_task());
                let Task { state, input, action, finished_at } = previous;
                let next = Task { state, input: None, action, finished_at };
                let _ = self.swap_task(i, next);
                assert(self@ =~= before.insert(id.0, next));
                input
            },
        }
    }

    /// Hands what the user supplied for the task `id` to the operation,
    /// once.
    pub fn take_user_action(&mut self, id: TaskId) -> (action: Option<A>)
        requires
            old(self).wf(),
        ensures
            final(self).wf(),
            final(self).retention() == old(self).retention(),
            final(self).issued() == old(self).issued(),
            action == (if old(self)@.contains_key(id.0) {
                old(self)@[id.0].action
            } else {
                None
            }),
            final(self)@ == (if old(self)@.contains_key(id.0) {
                old(self)@.insert(id.0, Task { action: None, ..old(self)@[id.0] })
            } else {
                old(self)@
            }),
    {
        match self.position(id.0) {
            None => None,
            Some(i) => {
                let ghost before = self@;
                let previous = self.swap_task(i, vacant_task());
                let Task { state, input, action, finished_at } = previous;
                let next = Task { state, input, action: None, finished_at };
                let _ = self.swap_task(i, next);
                assert(self@ =~= before.insert(id.0, next));
                action
            },
        }
    }
}

/// A task that has reached `state` at `now` and holds nothing else.
pub open spec fn finished<I, P, A, R, E>(state: TaskState<P, R, E>, now: u64) -> Task<
    I,
    P,
    A,
    R,
    E,
> {
    Task { state, input: None, action: None, finished_at: Some(now) }
}

/// `task` after the user has supplied `data`: running again, the data
/// waiting to be taken.
pub open spec fn resumed<I, P, A, R, E>(task: Task<I, P, A, R, E>, data: A) -> Task<
    I,
    P,
    A,
    R,
    E,
> {
    Task { state: TaskState::Running, input: task.input, action: Some(data), finished_at: None }
}

/// `task` while it waits for the user, showing `prompt`.
pub open spec fn waiting<I, P, A, R, E>(task: Task<I, P, A, R, E>, prompt: P) -> Task<
    I,
    P,
    A,
    R,
    E,
> {
    Task {
        state: TaskState::AwaitingUserAction(prompt),
        input: task.input,
        action: task.action,
        finished_at: None,
    }
}

/// What `cancel` answers for a task in the given state.
pub open spec fn cancel_outcome<P, R, E>(state: Option<TaskState<P, R, E>>) -> Result<
    (),
    TaskError,
> {
    match state {
        None => Err(TaskError::UnknownTask),
        Some(s) => if s.is_terminal() {
            Err(TaskError::AlreadyTerminal)
        } else {
            Ok(())
        },
    }
}

/// What `user_action` answers for a task in the given state.
pub open spec fn user_action_outcome<P, R, E>(state: Option<TaskState<P, R, E>>) -> Result<
    (),
    TaskError,
> {
    match state {
        None => Err(TaskError::UnknownTask),
        Some(s) => if s is AwaitingUserAction {
            Ok(())
        } else {
            Err(TaskError::NotAwaitingAction)
        },
    }
}

/// What the registry answers when the operation reports on a task in the
/// given state: a task in a final state takes no report.
pub open spec fn report_outcome<P, R, E>(state: Option<TaskState<P, R, E>>) -> Result<
    (),
    TaskError,
> {
    cancel_outcome(state)
}

/// A running task that holds nothing. It stands in a slot while the task of
/// the slot is being rebuilt.
fn vacant_task<I, P, A, R, E>() -> (task: Task<I, P, A, R, E>)
    ensures
        task == (Task::<I, P, A, R, E> {
            state: TaskState::Running,
            input: None,
            action: None,
            finished_at: None,
        }),
{
    Task { state: TaskState::Running, input: None, action: None, finished_at: None }
}

fn finished_task<I, P, A, R, E>(state: TaskState<P, R, E>, now: u64) -> (task: Task<I, P, A, R, E>)
    ensures
        task == finished::<I, P, A, R, E>(state, now),
{
    Task { state, input: None, action: None, finished_at: Some(now) }
}

impl<I, P, A, R, E> Slot<I, P, A, R, E> {
    fn state_ref(&self) -> (s: &TaskState<P, R, E>)
        ensures
            *s == self.task.state,
    {
        &self.task.state
    }
}

} // verus!
