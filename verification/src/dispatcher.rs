//! The dispatch entry point.
//!
//! A request passes, in this order: decoding, the local-only rule, the ban
//! check, the auth gate and the router. What the router finds decides what
//! happens next. A task method is served at once, from the task board. Any
//! other method is handed back to the caller as an invocation: the caller
//! runs the handler and lets [`handle_mmrpc`] wrap what came of it.

use vstd::prelude::*;
use crate::auth::{compares, one_more_check, verdict, AuthError, AuthGate};
use crate::board::{status_report, TaskBoard};
use crate::client::ClientIdentity;
use crate::envelope::{
    decode, decoded, optional_data, DecodeError, Defect, EnvelopeData, ProtocolVersion,
    RequestEnvelope,
};
use crate::errors::DispatcherError;
use crate::json::{
    json_as_u64, json_clone, json_data, json_from_map, json_from_str, json_from_u64, json_get,
    json_map_insert, json_map_new, JsonData, JsonNumber,
};
use crate::limiter::{after_failure, RateLimiter};
use crate::response::{
    build, failure_response, outcome_data, response_to, success_response, Failure, Response,
    ResponseData,
};
use crate::router::{route_v2, Handler, Router, TaskOperation, TaskPhase};
use crate::task::{
    cancel_outcome, finished, resumed, user_action_outcome, Task, TaskError, TaskId, TaskState,
};

verus! {

/// What every dispatch works on: the auth gate, the limiter, the routing tables
/// and the task board of one server.
pub struct DispatchContext {
    pub gate: AuthGate,
    pub limiter: RateLimiter,
    pub router: Router,
    pub tasks: TaskBoard,
}

impl DispatchContext {
    /// The limiter and the task board are in order.
    pub open spec fn wf(&self) -> bool {
        self.limiter.wf() && self.tasks.wf()
    }
}

/// A handler that the caller has to run, with what it needs to build the
/// response afterwards.
#[derive(Debug)]
pub struct Invocation {
    pub handler: Handler,
    pub params: serde_json::Value,
    pub protocol_version: ProtocolVersion,
    pub correlation_id: Option<serde_json::Value>,
}

/// An invocation as the contracts see it.
pub struct InvocationData {
    pub handler: Handler,
    pub params: JsonData,
    pub protocol_version: ProtocolVersion,
    pub correlation_id: Option<JsonData>,
}

impl View for Invocation {
    type V = InvocationData;

    open spec fn view(&self) -> InvocationData {
        InvocationData {
            handler: self.handler,
            params: json_data(self.params),
            protocol_version: self.protocol_version,
            correlation_id: optional_data(self.correlation_id),
        }
    }
}

/// What the caller has to do with a request that was let through.
#[derive(Debug)]
pub enum Dispatch {
    /// Send the response: the request has been served.
    Respond(Response),
    /// Send the response, and start the operation behind the new task.
    Start { response: Response, operation: TaskOperation, task: TaskId },
    /// Run the handler, then build the response from what it returns.
    Invoke(Invocation),
}

/// A dispatch as the contracts see it.
pub enum DispatchData {
    Respond(ResponseData),
    Start { response: ResponseData, operation: TaskOperation, task: TaskId },
    Invoke(InvocationData),
}

impl View for Dispatch {
    type V = DispatchData;

    open spec fn view(&self) -> DispatchData {
        match self {
            Dispatch::Respond(response) => DispatchData::Respond(response@),
            Dispatch::Start { response, operation, task } => DispatchData::Start {
                response: response@,
                operation: *operation,
                task: *task,
            },
            Dispatch::Invoke(invocation) => DispatchData::Invoke(invocation@),
        }
    }
}

/// What a dispatch comes to, as the contracts see it.
pub open spec fn dispatch_data(r: Result<Dispatch, DispatcherError>) -> Result<
    DispatchData,
    DispatcherError,
> {
    match r {
        Ok(dispatch) => Ok(dispatch@),
        Err(e) => Err(e),
    }
}

/// Whether a request is let through to the router. The rules, in order: a
/// caller from another machine gets `LocalHostOnly` for a protected method
/// while only local callers are served; a banned caller gets `Banned`; after
/// that the auth gate decides.
pub open spec fn admission(
    public: Set<Seq<char>>,
    configured: Option<Seq<char>>,
    banned: bool,
    loopback: bool,
    local_only: bool,
    method: Seq<char>,
    credential: Option<Seq<char>>,
) -> Result<(), DispatcherError> {
    if local_only && !loopback && !public.contains(method) {
        Err(DispatcherError::LocalHostOnly)
    } else if banned {
        Err(DispatcherError::Banned)
    } else {
        gate_outcome(verdict(public, configured, method, credential))
    }
}

/// Whether the request of `envelope` by `client` is let through, in the
/// state `ctx` at `now`.
pub open spec fn admitted(
    ctx: DispatchContext,
    envelope: EnvelopeData,
    client: ClientIdentity,
    local_only: bool,
    now: u64,
) -> Result<(), DispatcherError> {
    admission(
        ctx.gate.public_methods(),
        ctx.gate.configured(),
        ctx.limiter.banned(client.ip, now),
        client.ip.is_loopback(),
        local_only,
        envelope.method,
        envelope.credential,
    )
}

/// What the auth gate answers, as an error of the dispatcher.
pub open spec fn gate_outcome(verdict: Result<(), AuthError>) -> Result<(), DispatcherError> {
    match verdict {
        Ok(()) => Ok(()),
        Err(AuthError::CredentialMissing) => Err(DispatcherError::CredentialMissing),
        Err(AuthError::IncorrectCredential) => Err(DispatcherError::IncorrectCredential),
    }
}

/// What the auth gate's decision on a request does to the auth gate and the
/// limiter: a credential that is compared is counted, and a wrong one is
/// recorded as one failure of the caller's address.
pub open spec fn gate_effect(
    before: DispatchContext,
    after: DispatchContext,
    envelope: EnvelopeData,
    client: ClientIdentity,
    now: u64,
) -> bool {
    let outcome = verdict(
        before.gate.public_methods(),
        before.gate.configured(),
        envelope.method,
        envelope.credential,
    );
    &&& after.limiter.wf()
    &&& after.limiter.config() == before.limiter.config()
    &&& after.gate.public_methods() == before.gate.public_methods()
    &&& after.gate.configured() == before.gate.configured()
    &&& after.router == before.router
    &&& after.limiter@ == (if outcome == Err::<(), AuthError>(AuthError::IncorrectCredential) {
        before.limiter@.insert(
            client.ip,
            after_failure(before.limiter.record(client.ip), before.limiter.config(), now),
        )
    } else {
        before.limiter@
    })
    &&& after.gate.comparisons() == (if compares(
        before.gate.public_methods(),
        envelope.method,
        envelope.credential,
    ) {
        one_more_check(before.gate.comparisons())
    } else {
        before.gate.comparisons()
    })
}

/// What deciding on a request does to the auth gate and the limiter. A request
/// that is turned away before the auth gate changes nothing: no credential
/// is compared and no failure recorded.
pub open spec fn admission_effect(
    before: DispatchContext,
    after: DispatchContext,
    envelope: EnvelopeData,
    client: ClientIdentity,
    local_only: bool,
    now: u64,
) -> bool {
    let outcome = admitted(before, envelope, client, local_only, now);
    if outcome == Err::<(), DispatcherError>(DispatcherError::LocalHostOnly) || outcome == Err::<
        (),
        DispatcherError,
    >(DispatcherError::Banned) {
        &&& after.limiter.wf()
        &&& after.limiter.config() == before.limiter.config()
        &&& after.gate.public_methods() == before.gate.public_methods()
        &&& after.gate.configured() == before.gate.configured()
        &&& after.router == before.router
        &&& after.limiter@ == before.limiter@
        &&& after.gate.comparisons() == before.gate.comparisons()
    } else {
        gate_effect(before, after, envelope, client, now)
    }
}

/// The auth gate's part of the admission: decides on the credential of
/// `request`, and counts a wrong one against the address of `client`.
pub fn auth(
    request: &RequestEnvelope,
    ctx: &mut DispatchContext,
    client: &ClientIdentity,
    now: u64,
) -> (r: Result<(), DispatcherError>)
    requires
        old(ctx).wf(),
    ensures
        final(ctx).wf(),
        r == gate_outcome(
            verdict(
                old(ctx).gate.public_methods(),
                old(ctx).gate.configured(),
                request@.method,
                request@.credential,
            ),
        ),
        gate_effect(*old(ctx), *final(ctx), request@, *client, now),
        final(ctx).tasks == old(ctx).tasks,
{
    let credential = match &request.credential {
        Some(text) => Some(text.as_str()),
        None => None,
    };
    match ctx.gate.authorize(request.method.as_str(), credential, client.ip, &mut ctx.limiter, now) {
        Ok(()) => Ok(()),
        Err(AuthError::CredentialMissing) => Err(DispatcherError::CredentialMissing),
        Err(AuthError::IncorrectCredential) => Err(DispatcherError::IncorrectCredential),
    }
}

/// Decides whether the request of `request` by `client` is let through.
pub fn check_admission(
    request: &RequestEnvelope,
    ctx: &mut DispatchContext,
    client: &ClientIdentity,
    local_only: bool,
    now: u64,
) -> (r: Result<(), DispatcherError>)
    requires
        old(ctx).wf(),
    ensures
        final(ctx).wf(),
        r == admitted(*old(ctx), request@, *client, local_only, now),
        admission_effect(*old(ctx), *final(ctx), request@, *client, local_only, now),
        final(ctx).tasks == old(ctx).tasks,
{
    if local_only && !client.ip.is_loopback() && !ctx.gate.is_public(request.method.as_str()) {
        return Err(DispatcherError::LocalHostOnly);
    }
    if ctx.limiter.is_banned(client.ip, now) {
        return Err(DispatcherError::Banned);
    }
    auth(request, ctx, client, now)
}

/// The task that `params` address: the member `task_id`, where it is an
/// integer from 0 to 2^64 - 1.
pub open spec fn task_id_of(params: JsonData) -> Option<u64> {
    match params.member("task_id"@) {
        Some(id) => id.unsigned(),
        None => None,
    }
}

/// The result of a request that started the task `id`.
pub open spec fn init_report(id: u64) -> JsonData {
    JsonData::Object(
        Map::<Seq<char>, JsonData>::empty().insert(
            "task_id"@,
            JsonData::Number(JsonNumber::Unsigned(id)),
        ),
    )
}

/// The result of a request that a task took without anything to report.
pub open spec fn success_report() -> JsonData {
    JsonData::String("success"@)
}

/// What `init` makes of the board and answers. A new task of `operation` is
/// running, with `params` as its input and the next id of the operation;
/// the response carries the id, and the caller is told to start the
/// operation.
pub open spec fn init_step(
    before: TaskBoard,
    after: TaskBoard,
    operation: TaskOperation,
    params: JsonData,
    version: ProtocolVersion,
    id: Option<JsonData>,
    r: Result<DispatchData, DispatcherError>,
) -> bool {
    let task = before.issued(operation);
    if task < u64::MAX {
        &&& after.same_but(&before, operation)
        &&& after.issued(operation) == task + 1
        &&& !before.tasks(operation).contains_key(task)
        &&& after.tasks(operation) == before.tasks(operation).insert(
            task,
            Task { state: TaskState::Running, input: Some(params), action: None, finished_at: None },
        )
        &&& r == Ok::<DispatchData, DispatcherError>(
            DispatchData::Start {
                response: success_response(init_report(task), version, id),
                operation,
                task: TaskId(task),
            },
        )
    } else {
        &&& after.same_as(&before)
        &&& r == Err::<DispatchData, DispatcherError>(DispatcherError::OutOfTaskIds)
    }
}

/// What `status` answers. The board stays as it is.
pub open spec fn status_step(
    before: TaskBoard,
    after: TaskBoard,
    operation: TaskOperation,
    params: JsonData,
    version: ProtocolVersion,
    id: Option<JsonData>,
    r: Result<DispatchData, DispatcherError>,
) -> bool {
    &&& after.same_as(&before)
    &&& r == match task_id_of(params) {
        None => Err(DispatcherError::MalformedRequest(Defect::BadParams)),
        Some(task) => match before.state_of(operation, task) {
            None => Err(DispatcherError::Task(TaskError::UnknownTask)),
            Some(state) => Ok(
                DispatchData::Respond(success_response(status_report(state), version, id)),
            ),
        },
    }
}

/// What `cancel` makes of the board and answers.
pub open spec fn cancel_step(
    before: TaskBoard,
    after: TaskBoard,
    operation: TaskOperation,
    params: JsonData,
    version: ProtocolVersion,
    id: Option<JsonData>,
    now: u64,
    r: Result<DispatchData, DispatcherError>,
) -> bool {
    match task_id_of(params) {
        None => after.same_as(&before) && r == Err::<DispatchData, DispatcherError>(
            DispatcherError::MalformedRequest(Defect::BadParams),
        ),
        Some(task) => match cancel_outcome(before.state_of(operation, task)) {
            Err(e) => after.same_as(&before) && r == Err::<DispatchData, DispatcherError>(
                DispatcherError::Task(e),
            ),
            Ok(()) => {
                &&& after.same_but(&before, operation)
                &&& after.issued(operation) == before.issued(operation)
                &&& after.tasks(operation) == before.tasks(operation).insert(
                    task,
                    finished(TaskState::Cancelled, now),
                )
                &&& r == Ok::<DispatchData, DispatcherError>(
                    DispatchData::Respond(success_response(success_report(), version, id)),
                )
            },
        },
    }
}

/// What `user_action` makes of the board and answers. The data is the
/// member `user_action` of the parameters.
pub open spec fn user_action_step(
    before: TaskBoard,
    after: TaskBoard,
    operation: TaskOperation,
    params: JsonData,
    version: ProtocolVersion,
    id: Option<JsonData>,
    r: Result<DispatchData, DispatcherError>,
) -> bool {
    match (task_id_of(params), params.member("user_action"@)) {
        (Some(task), Some(data)) => match user_action_outcome(before.state_of(operation, task)) {
            Err(e) => after.same_as(&before) && r == Err::<DispatchData, DispatcherError>(
                DispatcherError::Task(e),
            ),
            Ok(()) => {
                &&& after.same_but(&before, operation)
                &&& after.issued(operation) == before.issued(operation)
                &&& after.tasks(operation) == before.tasks(operation).insert(
                    task,
                    resumed(before.tasks(operation)[task], data),
                )
                &&& r == Ok::<DispatchData, DispatcherError>(
                    DispatchData::Respond(success_response(success_report(), version, id)),
                )
            },
        },
        _ => after.same_as(&before) && r == Err::<DispatchData, DispatcherError>(
            DispatcherError::MalformedRequest(Defect::BadParams),
        ),
    }
}

/// What a task method makes of the board and answers, by its phase.
pub open spec fn task_step(
    before: TaskBoard,
    after: TaskBoard,
    operation: TaskOperation,
    phase: TaskPhase,
    params: JsonData,
    version: ProtocolVersion,
    id: Option<JsonData>,
    now: u64,
    r: Result<DispatchData, DispatcherError>,
) -> bool {
    match phase {
        TaskPhase::Init => init_step(before, after, operation, params, version, id, r),
        TaskPhase::Status => status_step(before, after, operation, params, version, id, r),
        TaskPhase::Cancel => cancel_step(before, after, operation, params, version, id, now, r),
        TaskPhase::UserAction => user_action_step(
            before,
            after,
            operation,
            params,
            version,
            id,
            r,
        ),
    }
}

fn read_task_id(params: &serde_json::Value) -> (r: Option<TaskId>)
    ensures
        match r {
            Some(task) => task_id_of(json_data(*params)) == Some(task.0),
            None => task_id_of(json_data(*params)) is None,
        },
{
    match json_get(params, "task_id") {
        None => None,
        Some(v) => match json_as_u64(v) {
            Some(n) => Some(TaskId(n)),
            None => None,
        },
    }
}

fn success(version: ProtocolVersion, id: Option<serde_json::Value>) -> (response: Response)
    ensures
        response@ == success_response(success_report(), version, optional_data(id)),
{
    build(Ok(json_from_str("success")), version, id)
}

/// Starts a task of `operation` with `params` as its input.
pub fn task_init(
    tasks: &mut TaskBoard,
    operation: TaskOperation,
    params: serde_json::Value,
    version: ProtocolVersion,
    id: Option<serde_json::Value>,
) -> (r: Result<Dispatch, DispatcherError>)
    requires
        old(tasks).wf(),
    ensures
        final(tasks).wf(),
        init_step(
            *old(tasks),
            *final(tasks),
            operation,
            json_data(params),
            version,
            optional_data(id),
            dispatch_data(r),
        ),
{
    if !tasks.can_create(operation) {
        return Err(DispatcherError::OutOfTaskIds);
    }
    let task = tasks.create(operation, params);
    let mut members = json_map_new();
    json_map_insert(&mut members, "task_id", json_from_u64(task.0));
    let response = build(Ok(json_from_map(members)), version, id);
    Ok(Dispatch::Start { response, operation, task })
}

/// Reports where the task that `params` name stands.
pub fn task_status(
    tasks: &TaskBoard,
    operation: TaskOperation,
    params: &serde_json::Value,
    version: ProtocolVersion,
    id: Option<serde_json::Value>,
) -> (r: Result<Dispatch, DispatcherError>)
    requires
        tasks.wf(),
    ensures
        status_step(
            *tasks,
            *tasks,
            operation,
            json_data(*params),
            version,
            optional_data(id),
            dispatch_data(r),
        ),
{
    let task = match read_task_id(params) {
        Some(task) => task,
        None => {
            return Err(DispatcherError::MalformedRequest(Defect::BadParams));
        },
    };
    match tasks.status(operation, task) {
        Ok(report) => Ok(Dispatch::Respond(build(Ok(report), version, id))),
        Err(e) => Err(DispatcherError::Task(e)),
    }
}

/// Cancels the task that `params` name.
pub fn task_cancel(
    tasks: &mut TaskBoard,
    operation: TaskOperation,
    params: &serde_json::Value,
    version: ProtocolVersion,
    id: Option<serde_json::Value>,
    now: u64,
) -> (r: Result<Dispatch, DispatcherError>)
    requires
        old(tasks).wf(),
    ensures
        final(tasks).wf(),
        cancel_step(
            *old(tasks),
            *final(tasks),
            operation,
            json_data(*params),
            version,
            optional_data(id),
            now,
            dispatch_data(r),
        ),
{
    let task = match read_task_id(params) {
        Some(task) => task,
        None => {
            return Err(DispatcherError::MalformedRequest(Defect::BadParams));
        },
    };
    match tasks.cancel(operation, task, now) {
        Ok(()) => Ok(Dispatch::Respond(success(version, id))),
        Err(e) => Err(DispatcherError::Task(e)),
    }
}

/// Hands the member `user_action` of `params` to the task that they name.
pub fn task_user_action(
    tasks: &mut TaskBoard,
    operation: TaskOperation,
    params: &serde_json::Value,
    version: ProtocolVersion,
    id: Option<serde_json::Value>,
) -> (r: Result<Dispatch, DispatcherError>)
    requires
        old(tasks).wf(),
    ensures
        final(tasks).wf(),
        user_action_step(
            *old(tasks),
            *final(tasks),
            operation,
            json_data(*params),
            version,
            optional_data(id),
            dispatch_data(r),
        ),
{
    let task = match read_task_id(params) {
        Some(task) => task,
        None => {
            return Err(DispatcherError::MalformedRequest(Defect::BadParams));
        },
    };
    let data = match json_get(params, "user_action") {
        Some(data) => json_clone(data),
        None => {
            return Err(DispatcherError::MalformedRequest(Defect::BadParams));
        },
    };
    match tasks.user_action(operation, task, data) {
        Ok(()) => Ok(Dispatch::Respond(success(version, id))),
        Err(e) => Err(DispatcherError::Task(e)),
    }
}

/// Serves a task method: one phase of one operation.
pub fn handle_task(
    tasks: &mut TaskBoard,
    operation: TaskOperation,
    phase: TaskPhase,
    params: serde_json::Value,
    version: ProtocolVersion,
    id: Option<serde_json::Value>,
    now: u64,
) -> (r: Result<Dispatch, DispatcherError>)
    requires
        old(tasks).wf(),
    ensures
        final(tasks).wf(),
        task_step(
            *old(tasks),
            *final(tasks),
            operation,
            phase,
            json_data(params),
            version,
            optional_data(id),
            now,
            dispatch_data(r),
        ),
{
    match phase {
        TaskPhase::Init => task_init(tasks, operation, params, version, id),
        TaskPhase::Status => task_status(tasks, operation, &params, version, id),
        TaskPhase::Cancel => task_cancel(tasks, operation, &params, version, id, now),
        TaskPhase::UserAction => task_user_action(tasks, operation, &params, version, id),
    }
}

/// What the router makes of a request that was let through. A task method
/// is served from the board; any other method that the router knows is
/// handed back as an invocation, with the parameters, the version and the
/// correlation id of the request; a method that it does not know is
/// `NoSuchMethod`.
pub open spec fn routed_step(
    before: DispatchContext,
    after: DispatchContext,
    envelope: EnvelopeData,
    now: u64,
    r: Result<DispatchData, DispatcherError>,
) -> bool {
    match route_v2(before.router.capabilities(), envelope.method) {
        None => after.tasks.same_as(&before.tasks) && r == Err::<DispatchData, DispatcherError>(
            DispatcherError::NoSuchMethod,
        ),
        Some(Handler::Task(operation, phase)) => task_step(
            before.tasks,
            after.tasks,
            operation,
            phase,
            envelope.params,
            envelope.protocol_version,
            envelope.correlation_id,
            now,
            r,
        ),
        Some(handler) => after.tasks.same_as(&before.tasks) && r == Ok::<
            DispatchData,
            DispatcherError,
        >(
            DispatchData::Invoke(
                InvocationData {
                    handler,
                    params: envelope.params,
                    protocol_version: envelope.protocol_version,
                    correlation_id: envelope.correlation_id,
                },
            ),
        ),
    }
}

/// What one request makes of the server's state and comes to. A request
/// that cannot be decoded is malformed and changes nothing. Otherwise the
/// admission decides, with its effect on the auth gate and the limiter, and only
/// a request that is let through reaches the router.
pub open spec fn dispatch_step(
    before: DispatchContext,
    after: DispatchContext,
    raw: JsonData,
    client: ClientIdentity,
    local_only: bool,
    now: u64,
    r: Result<DispatchData, DispatcherError>,
) -> bool {
    match decoded(raw) {
        Err(DecodeError::MalformedRequest(defect)) => after == before && r == Err::<
            DispatchData,
            DispatcherError,
        >(DispatcherError::MalformedRequest(defect)),
        Ok(envelope) => {
            &&& admission_effect(before, after, envelope, client, local_only, now)
            &&& match admitted(before, envelope, client, local_only, now) {
                Err(e) => after.tasks.same_as(&before.tasks) && r == Err::<
                    DispatchData,
                    DispatcherError,
                >(e),
                Ok(()) => routed_step(before, after, envelope, now, r),
            }
        },
    }
}

/// Takes one request through decoding, admission and routing.
pub fn process_single_request(
    ctx: &mut DispatchContext,
    req: &serde_json::Value,
    client: ClientIdentity,
    local_only: bool,
    now: u64,
) -> (r: Result<Dispatch, DispatcherError>)
    requires
        old(ctx).wf(),
    ensures
        final(ctx).wf(),
        dispatch_step(
            *old(ctx),
            *final(ctx),
            json_data(*req),
            client,
            local_only,
            now,
            dispatch_data(r),
        ),
{
    let request = match decode(req) {
        Ok(request) => request,
        Err(DecodeError::MalformedRequest(defect)) => {
            return Err(DispatcherError::MalformedRequest(defect));
        },
    };
    match check_admission(&request, ctx, &client, local_only, now) {
        Ok(()) => {},
        Err(e) => {
            return Err(e);
        },
    }
    let RequestEnvelope { protocol_version, method, params, correlation_id, credential: _ } =
        request;
    let routed = match protocol_version {
        ProtocolVersion::V2 => ctx.router.dispatcher_v2(method.as_str()),
    };
    match routed {
        Err(_) => Err(DispatcherError::NoSuchMethod),
        Ok(Handler::Task(operation, phase)) => handle_task(
            &mut ctx.tasks,
            operation,
            phase,
            params,
            protocol_version,
            correlation_id,
            now,
        ),
        Ok(handler) => Ok(
            Dispatch::Invoke(Invocation { handler, params, protocol_version, correlation_id }),
        ),
    }
}

/// Wraps what a handler returned into the response to its request.
pub fn handle_mmrpc(
    protocol_version: ProtocolVersion,
    correlation_id: Option<serde_json::Value>,
    result: Result<serde_json::Value, Failure>,
) -> (response: Response)
    ensures
        response@ == response_to(
            outcome_data(result),
            protocol_version,
            optional_data(correlation_id),
        ),
{
    build(result, protocol_version, correlation_id)
}

/// The response to a request that the dispatcher turned away.
pub fn response_from_dispatcher_error(
    error: DispatcherError,
    protocol_version: ProtocolVersion,
    correlation_id: Option<serde_json::Value>,
) -> (response: Response)
    ensures
        response@ == failure_response(
            error.failure_data(),
            protocol_version,
            optional_data(correlation_id),
        ),
{
    build(Err(error.failure()), protocol_version, correlation_id)
}

/// What the caller gets for a request that came to `r`: the dispatch itself,
/// or for an error its response, which carries the correlation id of the
/// raw request.
pub open spec fn recovered(r: Result<DispatchData, DispatcherError>, raw: JsonData) -> DispatchData {
    match r {
        Ok(dispatch) => dispatch,
        Err(e) => DispatchData::Respond(
            failure_response(
                e.failure_data(),
                ProtocolVersion::V2,
                crate::envelope::correlation_id_of(raw),
            ),
        ),
    }
}

/// Takes one request through the dispatcher and turns every error into a
/// response, so that the caller always has something to send.
pub fn serve(
    ctx: &mut DispatchContext,
    req: &serde_json::Value,
    client: ClientIdentity,
    local_only: bool,
    now: u64,
) -> (dispatch: Dispatch)
    requires
        old(ctx).wf(),
    ensures
        final(ctx).wf(),
        exists|r: Result<DispatchData, DispatcherError>|
            #[trigger] dispatch_step(
                *old(ctx),
                *final(ctx),
                json_data(*req),
                client,
                local_only,
                now,
                r,
            ) && dispatch@ == recovered(r, json_data(*req)),
{
    match process_single_request(ctx, req, client, local_only, now) {
        Ok(dispatch) => {
            assert(dispatch@ == recovered(Ok(dispatch@), json_data(*req)));
            dispatch
        },
        Err(e) => {
            let id = crate::envelope::read_correlation_id(req);
            let dispatch = Dispatch::Respond(
                response_from_dispatcher_error(e, ProtocolVersion::V2, id),
            );
            assert(dispatch@ == recovered(Err(e), json_data(*req)));
            dispatch
        },
    }
}

} // verus!
