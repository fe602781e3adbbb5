use rpc_dispatch::task::{Task, TaskError, TaskId, TaskRegistry, TaskState};

type Registry = TaskRegistry<String, String, u32, u64, String>;

fn running(registry: &Registry, id: TaskId) -> bool {
    matches!(registry.status(id), Ok(TaskState::Running))
}

#[test]
fn created_task_is_running_at_once() {
    let mut registry = Registry::new(60);
    assert!(registry.can_create());
    let id = registry.create("input".to_string());
    assert_eq!(id, TaskId(0));
    assert!(running(&registry, id));
    let second = registry.create("other".to_string());
    assert_eq!(second, TaskId(1));
    assert!(running(&registry, second));
}

#[test]
fn ids_are_never_given_twice() {
    let mut registry = Registry::new(0);
    let first = registry.create("a".to_string());
    assert_eq!(registry.complete(first, 1, 10), Ok(()));
    registry.reap(10);
    assert!(matches!(registry.status(first), Err(TaskError::UnknownTask)));
    let second = registry.create("b".to_string());
    assert_ne!(first, second);
    assert_eq!(second, TaskId(1));
}

#[test]
fn status_of_an_unknown_task() {
    let mut registry = Registry::new(60);
    assert!(matches!(registry.status(TaskId(0)), Err(TaskError::UnknownTask)));
    let id = registry.create("input".to_string());
    assert!(matches!(registry.status(TaskId(id.0 + 1)), Err(TaskError::UnknownTask)));
    assert!(matches!(registry.status(TaskId(u64::MAX)), Err(TaskError::UnknownTask)));
    assert_eq!(registry.cancel(TaskId(7), 1), Err(TaskError::UnknownTask));
    assert_eq!(registry.user_action(TaskId(7), 1), Err(TaskError::UnknownTask));
    assert_eq!(registry.complete(TaskId(7), 1, 1), Err(TaskError::UnknownTask));
    assert_eq!(registry.fail(TaskId(7), "e".to_string(), 1), Err(TaskError::UnknownTask));
    assert_eq!(registry.request_user_action(TaskId(7), "p".to_string()), Err(TaskError::UnknownTask));
    assert_eq!(registry.claim_input(TaskId(7)), None);
    assert_eq!(registry.take_user_action(TaskId(7)), None);
}

#[test]
fn status_polls_change_nothing() {
    let mut registry = Registry::new(60);
    let id = registry.create("input".to_string());
    for _ in 0..5 {
        assert!(running(&registry, id));
    }
    assert_eq!(registry.request_user_action(id, "pin?".to_string()), Ok(()));
    for _ in 0..5 {
        match registry.status(id) {
            Ok(TaskState::AwaitingUserAction(prompt)) => assert_eq!(prompt, "pin?"),
            other => panic!("{:?}", other),
        }
    }
    assert_eq!(registry.claim_input(id), Some("input".to_string()));
}

#[test]
fn user_action_round_trip() {
    let mut registry = Registry::new(60);
    let id = registry.create("input".to_string());
    assert_eq!(registry.user_action(id, 1234), Err(TaskError::NotAwaitingAction));
    assert_eq!(registry.take_user_action(id), None);
    assert_eq!(registry.request_user_action(id, "pin?".to_string()), Ok(()));
    assert!(matches!(registry.status(id), Ok(TaskState::AwaitingUserAction(_))));
    assert_eq!(registry.user_action(id, 1234), Ok(()));
    assert!(running(&registry, id));
    assert_eq!(registry.user_action(id, 99), Err(TaskError::NotAwaitingAction));
    assert_eq!(registry.take_user_action(id), Some(1234));
    assert_eq!(registry.take_user_action(id), None);
    assert_eq!(registry.complete(id, 77, 5), Ok(()));
    match registry.status(id) {
        Ok(TaskState::Completed(result)) => assert_eq!(*result, 77),
        other => panic!("{:?}", other),
    }
}

#[test]
fn input_is_claimed_once() {
    let mut registry = Registry::new(60);
    let id = registry.create("input".to_string());
    assert_eq!(registry.claim_input(id), Some("input".to_string()));
    assert_eq!(registry.claim_input(id), None);
    assert!(running(&registry, id));
}

#[test]
fn cancel_a_running_task() {
    let mut registry = Registry::new(60);
    let id = registry.create("input".to_string());
    assert_eq!(registry.cancel(id, 10), Ok(()));
    assert!(matches!(registry.status(id), Ok(TaskState::Cancelled)));
    assert_eq!(registry.cancel(id, 11), Err(TaskError::AlreadyTerminal));
    assert_eq!(registry.complete(id, 1, 12), Err(TaskError::AlreadyTerminal));
    assert_eq!(registry.fail(id, "late".to_string(), 12), Err(TaskError::AlreadyTerminal));
    assert_eq!(registry.request_user_action(id, "p".to_string()), Err(TaskError::AlreadyTerminal));
    assert_eq!(registry.user_action(id, 1), Err(TaskError::NotAwaitingAction));
    assert!(matches!(registry.status(id), Ok(TaskState::Cancelled)));
    assert_eq!(registry.claim_input(id), None);
}

#[test]
fn cancel_a_waiting_task() {
    let mut registry = Registry::new(60);
    let id = registry.create("input".to_string());
    assert_eq!(registry.request_user_action(id, "confirm".to_string()), Ok(()));
    assert_eq!(registry.cancel(id, 10), Ok(()));
    assert!(matches!(registry.status(id), Ok(TaskState::Cancelled)));
    assert_eq!(registry.user_action(id, 1), Err(TaskError::NotAwaitingAction));
}

#[test]
fn cancel_a_terminal_task() {
    let mut registry = Registry::new(60);
    let done = registry.create("a".to_string());
    let failed = registry.create("b".to_string());
    assert_eq!(registry.complete(done, 5, 1), Ok(()));
    assert_eq!(registry.fail(failed, "boom".to_string(), 1), Ok(()));
    assert_eq!(registry.cancel(done, 2), Err(TaskError::AlreadyTerminal));
    assert_eq!(registry.cancel(failed, 2), Err(TaskError::AlreadyTerminal));
    match registry.status(failed) {
        Ok(TaskState::Failed(error)) => assert_eq!(error, "boom"),
        other => panic!("{:?}", other),
    }
    assert!(matches!(registry.status(done), Ok(TaskState::Completed(5))));
}

#[test]
fn terminal_tasks_are_reaped_after_the_retention_time() {
    let mut registry = Registry::new(60);
    let done = registry.create("a".to_string());
    let live = registry.create("b".to_string());
    let cancelled = registry.create("c".to_string());
    assert_eq!(registry.complete(done, 5, 100), Ok(()));
    assert_eq!(registry.cancel(cancelled, 130), Ok(()));
    registry.reap(159);
    assert!(matches!(registry.status(done), Ok(TaskState::Completed(5))));
    registry.reap(160);
    assert!(matches!(registry.status(done), Err(TaskError::UnknownTask)));
    assert!(matches!(registry.status(cancelled), Ok(TaskState::Cancelled)));
    assert!(running(&registry, live));
    registry.reap(50);
    assert!(matches!(registry.status(cancelled), Ok(TaskState::Cancelled)));
    registry.reap(190);
    assert!(matches!(registry.status(cancelled), Err(TaskError::UnknownTask)));
    registry.reap(u64::MAX);
    assert!(running(&registry, live));
    assert_eq!(registry.cancel(done, 200), Err(TaskError::UnknownTask));
}

#[test]
fn terminal_states() {
    let running: TaskState<u8, u8, u8> = TaskState::Running;
    assert!(!running.is_terminal());
    assert!(!TaskState::<u8, u8, u8>::AwaitingUserAction(1).is_terminal());
    assert!(TaskState::<u8, u8, u8>::Completed(1).is_terminal());
    assert!(TaskState::<u8, u8, u8>::Cancelled.is_terminal());
    assert!(TaskState::<u8, u8, u8>::Failed(1).is_terminal());
    let task: Task<u8, u8, u8, u8, u8> =
        Task { state: TaskState::Running, input: None, action: None, finished_at: None };
    assert!(task.finished_at.is_none());
}
