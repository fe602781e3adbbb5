use rpc_dispatch::auth::{AuthGate, PublicMethodSet};
use rpc_dispatch::board::TaskBoard;
use rpc_dispatch::client::{ClientIdentity, IpAddress};
use rpc_dispatch::dispatcher::{
    handle_task, process_single_request, serve, task_cancel, task_init, task_status,
    task_user_action, Dispatch, DispatchContext,
};
use rpc_dispatch::envelope::{Defect, ProtocolVersion};
use rpc_dispatch::errors::DispatcherError;
use rpc_dispatch::limiter::{RateLimitConfig, RateLimiter};
use rpc_dispatch::response::Response;
use rpc_dispatch::router::{Capabilities, Handler, Router, RpcMethod, TaskOperation, TaskPhase};
use rpc_dispatch::task::{TaskError, TaskId};
use serde_json::Value;

fn json(text: &str) -> Value {
    serde_json::from_str(text).unwrap()
}

fn context() -> DispatchContext {
    DispatchContext {
        gate: AuthGate::new(PublicMethodSet::new(vec!["version".to_string()]), Some("secret".to_string())),
        limiter: RateLimiter::new(RateLimitConfig { max_failures: 2, window: 60, ban_duration: 300 }),
        router: Router::new(Capabilities { lightning: true, metamask: false, sia: false }),
        tasks: TaskBoard::new(600),
    }
}

fn client() -> ClientIdentity {
    ClientIdentity { ip: IpAddress::V4(192, 168, 1, 20), port: 51000 }
}

fn responded(dispatch: Dispatch) -> Response {
    match dispatch {
        Dispatch::Respond(response) => response,
        other => panic!("{:?}", other),
    }
}

#[test]
fn withdraw_task_from_init_to_completed() {
    let mut ctx = context();
    let init = json(
        r#"{"mmrpc":"2.0","method":"task::withdraw::init","params":{"coin":"KMD","to":"RQd","amount":"1"},"id":1,"userpass":"secret"}"#,
    );
    let task = match serve(&mut ctx, &init, client(), false, 1000) {
        Dispatch::Start { response, operation, task } => {
            assert_eq!(response.status, 200);
            assert_eq!(response.body, json(r#"{"mmrpc":"2.0","id":1,"result":{"task_id":0}}"#));
            assert_eq!(operation, TaskOperation::Withdraw);
            assert_eq!(task, TaskId(0));
            task
        },
        other => panic!("{:?}", other),
    };
    assert_eq!(
        ctx.tasks.claim_input(TaskOperation::Withdraw, task),
        Some(json(r#"{"coin":"KMD","to":"RQd","amount":"1"}"#))
    );
    let status = json(
        r#"{"mmrpc":"2.0","method":"task::withdraw::status","params":{"task_id":0},"id":2,"userpass":"secret"}"#,
    );
    let response = responded(serve(&mut ctx, &status, client(), false, 1001));
    assert_eq!(response.status, 200);
    assert_eq!(response.body, json(r#"{"mmrpc":"2.0","id":2,"result":{"status":"Running"}}"#));
    let again = responded(serve(&mut ctx, &status, client(), false, 1002));
    assert_eq!(again.body, response.body);
    let transaction = json(r#"{"tx_hex":"0400008085","tx_hash":"ab12","total_amount":"1"}"#);
    assert_eq!(ctx.tasks.complete(TaskOperation::Withdraw, task, transaction, 1010), Ok(()));
    let response = responded(serve(&mut ctx, &status, client(), false, 1011));
    assert_eq!(
        response.body,
        json(
            r#"{"mmrpc":"2.0","id":2,"result":{"status":"Completed","details":{"tx_hex":"0400008085","tx_hash":"ab12","total_amount":"1"}}}"#
        )
    );
    ctx.tasks.reap(1609);
    assert_eq!(responded(serve(&mut ctx, &status, client(), false, 1609)).status, 200);
    ctx.tasks.reap(1610);
    let gone = responded(serve(&mut ctx, &status, client(), false, 1611));
    assert_eq!(gone.status, 400);
    assert_eq!(gone.body.get("error_type"), Some(&json(r#""UnknownTask""#)));
    assert_eq!(gone.body.get("id"), Some(&json("2")));
}

#[test]
fn interactive_task_over_requests() {
    let mut ctx = context();
    let request = |method: &str, params: &str| {
        json(&format!(
            "{{\"mmrpc\":\"2.0\",\"method\":\"{}\",\"params\":{},\"userpass\":\"secret\"}}",
            method, params
        ))
    };
    let started = serve(&mut ctx, &request("task::init_trezor::init", "{}"), client(), false, 1);
    assert!(matches!(
        started,
        Dispatch::Start { operation: TaskOperation::InitTrezor, task: TaskId(0), .. }
    ));
    let early = process_single_request(
        &mut ctx,
        &request("task::init_trezor::user_action", r#"{"task_id":0,"user_action":{"pin":"1234"}}"#),
        client(),
        false,
        2,
    );
    assert_eq!(early.unwrap_err(), DispatcherError::Task(TaskError::NotAwaitingAction));
    assert_eq!(
        ctx.tasks.request_user_action(TaskOperation::InitTrezor, TaskId(0), json(r#"{"ask":"pin"}"#)),
        Ok(())
    );
    let status = responded(serve(
        &mut ctx,
        &request("task::init_trezor::status", r#"{"task_id":0}"#),
        client(),
        false,
        3,
    ));
    assert_eq!(
        status.body.get("result"),
        Some(&json(r#"{"status":"AwaitingUserAction","details":{"ask":"pin"}}"#))
    );
    let acted = responded(serve(
        &mut ctx,
        &request("task::init_trezor::user_action", r#"{"task_id":0,"user_action":{"pin":"1234"}}"#),
        client(),
        false,
        4,
    ));
    assert_eq!(acted.body.get("result"), Some(&json(r#""success""#)));
    assert_eq!(
        ctx.tasks.take_user_action(TaskOperation::InitTrezor, TaskId(0)),
        Some(json(r#"{"pin":"1234"}"#))
    );
    assert_eq!(ctx.tasks.take_user_action(TaskOperation::InitTrezor, TaskId(0)), None);
    let cancelled = responded(serve(
        &mut ctx,
        &request("task::init_trezor::cancel", r#"{"task_id":0}"#),
        client(),
        false,
        5,
    ));
    assert_eq!(cancelled.body.get("result"), Some(&json(r#""success""#)));
    let status = responded(serve(
        &mut ctx,
        &request("task::init_trezor::status", r#"{"task_id":0}"#),
        client(),
        false,
        6,
    ));
    assert_eq!(status.body.get("result"), Some(&json(r#"{"status":"Cancelled"}"#)));
    let twice = process_single_request(
        &mut ctx,
        &request("task::init_trezor::cancel", r#"{"task_id":0}"#),
        client(),
        false,
        7,
    );
    assert_eq!(twice.unwrap_err(), DispatcherError::Task(TaskError::AlreadyTerminal));
    assert_eq!(
        ctx.tasks.complete(TaskOperation::InitTrezor, TaskId(0), json("1"), 8),
        Err(TaskError::AlreadyTerminal)
    );
}

#[test]
fn tasks_of_one_operation_are_unknown_to_another() {
    let mut board = TaskBoard::new(60);
    assert!(board.can_create(TaskOperation::Withdraw));
    let id = board.create(TaskOperation::Withdraw, json("{}"));
    assert_eq!(id, TaskId(0));
    assert_eq!(board.status(TaskOperation::Withdraw, id), Ok(json(r#"{"status":"Running"}"#)));
    assert_eq!(board.status(TaskOperation::EnableEth, id), Err(TaskError::UnknownTask));
    assert_eq!(board.cancel(TaskOperation::EnableEth, id, 1), Err(TaskError::UnknownTask));
    assert_eq!(board.create(TaskOperation::EnableEth, json("{}")), TaskId(0));
    assert_eq!(board.create(TaskOperation::Withdraw, json("{}")), TaskId(1));
    assert_eq!(board.fail(TaskOperation::EnableEth, TaskId(0), json(r#""no rpc""#), 5), Ok(()));
    assert_eq!(
        board.status(TaskOperation::EnableEth, TaskId(0)),
        Ok(json(r#"{"status":"Failed","details":"no rpc"}"#))
    );
    assert_eq!(board.status(TaskOperation::Withdraw, TaskId(0)), Ok(json(r#"{"status":"Running"}"#)));
    board.reap(65);
    assert_eq!(board.status(TaskOperation::EnableEth, TaskId(0)), Err(TaskError::UnknownTask));
    assert_eq!(board.status(TaskOperation::Withdraw, TaskId(1)), Ok(json(r#"{"status":"Running"}"#)));
    assert_eq!(board.user_action(TaskOperation::Withdraw, TaskId(1), json("1")), Err(TaskError::NotAwaitingAction));
}

#[test]
fn task_parameters_must_name_the_task() {
    let mut board = TaskBoard::new(60);
    let v2 = ProtocolVersion::V2;
    let started = task_init(&mut board, TaskOperation::Withdraw, json("{}"), v2, None).unwrap();
    assert!(matches!(started, Dispatch::Start { task: TaskId(0), .. }));
    for params in ["{}", "null", r#"{"task_id":"0"}"#, r#"{"task_id":-1}"#, r#"{"task_id":0.5}"#, "[0]"] {
        let bad = DispatcherError::MalformedRequest(Defect::BadParams);
        assert_eq!(task_status(&board, TaskOperation::Withdraw, &json(params), v2, None).unwrap_err(), bad);
        assert_eq!(
            task_cancel(&mut board, TaskOperation::Withdraw, &json(params), v2, None, 1).unwrap_err(),
            bad
        );
        assert_eq!(
            task_user_action(&mut board, TaskOperation::Withdraw, &json(params), v2, None).unwrap_err(),
            bad
        );
    }
    assert_eq!(
        task_user_action(&mut board, TaskOperation::Withdraw, &json(r#"{"task_id":0}"#), v2, None)
            .unwrap_err(),
        DispatcherError::MalformedRequest(Defect::BadParams)
    );
    assert_eq!(
        task_status(&board, TaskOperation::Withdraw, &json(r#"{"task_id":18446744073709551615}"#), v2, None)
            .unwrap_err(),
        DispatcherError::Task(TaskError::UnknownTask)
    );
    let handled = handle_task(
        &mut board,
        TaskOperation::Withdraw,
        TaskPhase::Status,
        json(r#"{"task_id":0}"#),
        v2,
        Some(json("5")),
        2,
    );
    assert_eq!(
        responded(handled.unwrap()).body,
        json(r#"{"mmrpc":"2.0","id":5,"result":{"status":"Running"}}"#)
    );
}

#[test]
fn errors_are_turned_into_responses() {
    let mut ctx = context();
    let malformed = responded(serve(&mut ctx, &json(r#"{"method":"withdraw","id":11}"#), client(), false, 1));
    assert_eq!(malformed.status, 400);
    assert_eq!(malformed.body.get("error_type"), Some(&json(r#""MalformedRequest""#)));
    assert_eq!(malformed.body.get("id"), Some(&json("11")));
    assert_eq!(malformed.body.get("mmrpc"), Some(&json(r#""2.0""#)));
    let missing = responded(serve(
        &mut ctx,
        &json(r#"{"mmrpc":"2.0","method":"withdraw","id":"x"}"#),
        client(),
        false,
        1,
    ));
    assert_eq!(missing.status, 403);
    assert_eq!(missing.body.get("error_type"), Some(&json(r#""CredentialMissing""#)));
    assert_eq!(missing.body.get("id"), Some(&json(r#""x""#)));
    let unknown = responded(serve(
        &mut ctx,
        &json(r#"{"mmrpc":"2.0","method":"nothing","userpass":"secret"}"#),
        client(),
        false,
        1,
    ));
    assert_eq!(unknown.status, 400);
    assert_eq!(unknown.body.get("error_type"), Some(&json(r#""NoSuchMethod""#)));
    assert_eq!(unknown.body.get("id"), Some(&Value::Null));
}

#[test]
fn malformed_request_is_refused_before_admission() {
    let mut ctx = context();
    let raw = json(r#"{"mmrpc":"2.0","method":"","userpass":"guess"}"#);
    assert_eq!(
        process_single_request(&mut ctx, &raw, client(), true, 1).unwrap_err(),
        DispatcherError::MalformedRequest(Defect::BadMethod)
    );
    assert_eq!(ctx.gate.comparison_count(), 0);
    assert_eq!(ctx.limiter.failure_count(client().ip, 1), 0);
}

#[test]
fn repeated_wrong_credentials_lead_to_a_ban() {
    let mut ctx = context();
    let wrong = json(r#"{"mmrpc":"2.0","method":"withdraw","userpass":"guess"}"#);
    let right = json(r#"{"mmrpc":"2.0","method":"withdraw","params":{"coin":"KMD"},"id":5,"userpass":"secret"}"#);
    for n in 1..=3u32 {
        assert_eq!(
            process_single_request(&mut ctx, &wrong, client(), false, 10).unwrap_err(),
            DispatcherError::IncorrectCredential
        );
        assert_eq!(ctx.limiter.failure_count(client().ip, 10), n);
    }
    assert_eq!(
        process_single_request(&mut ctx, &right, client(), false, 11).unwrap_err(),
        DispatcherError::Banned
    );
    assert_eq!(ctx.gate.comparison_count(), 3);
    match process_single_request(&mut ctx, &right, client(), false, 310) {
        Ok(Dispatch::Invoke(invocation)) => {
            assert_eq!(invocation.handler, Handler::Rpc(RpcMethod::Withdraw));
            assert_eq!(invocation.params, json(r#"{"coin":"KMD"}"#));
            assert_eq!(invocation.correlation_id, Some(json("5")));
        },
        other => panic!("{:?}", other),
    }
}
