//! What holds of the dispatcher as a whole, proved from the contracts of its
//! parts.

use vstd::prelude::*;
use crate::auth::{verdict, AuthError};
use crate::board::{status_report, TaskBoard};
use crate::client::{ClientIdentity, IpAddress};
use crate::dispatcher::{
    admission, cancel_step, dispatch_step, init_step, status_step, task_id_of, DispatchContext,
    DispatchData,
};
use crate::envelope::{decoded, ProtocolVersion};
use crate::errors::DispatcherError;
use crate::json::JsonData;
use crate::limiter::{after_failure, counted_failures, one_more, FailureRecord, RateLimitConfig};
use crate::response::{id_member, response_to, success_response, FailureData};
use crate::router::{
    experimental_route, found, gui_storage_routes, lightning_routes, lookup, route_v2,
    stream_routes, task_routes, top_level_routes, Capabilities, Handler, NoSuchMethod, Route,
};
use crate::task::{
    cancel_outcome, finished, report_outcome, resumed, unexpired, user_action_outcome, waiting,
    Task, TaskError, TaskRegistry, TaskState,
};
use crate::router::TaskOperation;
use crate::text::after_prefix;

verus! {

/// Of several lines of one name the first listed decides: `lookup` gives
/// the handler of the first line whose name is `key`, and nothing exactly
/// when no line has that name.
pub proof fn law_lookup_is_first_match(table: Seq<Route>, key: Seq<char>)
    ensures
        match lookup(table, key) {
            Some(h) => exists|i: int|
                0 <= i < table.len() && #[trigger] table[i].name == key && table[i].handler == h
                    && forall|j: int| 0 <= j < i ==> #[trigger] table[j].name != key,
            None => forall|i: int| 0 <= i < table.len() ==> #[trigger] table[i].name != key,
        },
    decreases table.len(),
{
    if table.len() == 0 {
    } else if table[0].name == key {
        assert(table[0].name == key && table[0].handler == table[0].handler);
    } else {
        let rest = table.drop_first();
        law_lookup_is_first_match(rest, key);
        match lookup(rest, key) {
            Some(h) => {
                let i = choose|i: int|
                    0 <= i < rest.len() && #[trigger] rest[i].name == key && rest[i].handler == h
                        && forall|j: int| 0 <= j < i ==> #[trigger] rest[j].name != key;
                assert(table[i + 1] == rest[i]);
                assert forall|j: int| 0 <= j < i + 1 implies #[trigger] table[j].name != key by {
                    if j > 0 {
                        assert(table[j] == rest[j - 1]);
                    }
                }
                assert(table[i + 1].name == key && table[i + 1].handler == h);
            },
            None => {
                assert forall|i: int| 0 <= i < table.len() implies #[trigger] table[i].name
                    != key by {
                    if i > 0 {
                        assert(table[i] == rest[i - 1]);
                    }
                }
            },
        }
    }
}

/// A method that stands under no namespace and in no line of the top-level
/// table is answered with `NoSuchMethod`.
pub proof fn law_unknown_method_is_refused(caps: Capabilities, method: Seq<char>)
    requires
        after_prefix(method, "stream::"@) is None,
        after_prefix(method, "task::"@) is None,
        after_prefix(method, "gui_storage::"@) is None,
        after_prefix(method, "experimental::"@) is None,
        after_prefix(method, "lightning::"@) is None,
        forall|i: int|
            0 <= i < top_level_routes().len() ==> (#[trigger] top_level_routes()[i]).name
                != method,
    ensures
        found(route_v2(caps, method)) == Err::<Handler, NoSuchMethod>(NoSuchMethod),
{
    law_lookup_is_first_match(top_level_routes(), method);
}

/// A name that is in no line of the table of its namespace is answered with
/// `NoSuchMethod`, whatever the other tables hold.
pub proof fn law_unknown_name_in_namespace_is_refused(caps: Capabilities, rest: Seq<char>)
    ensures
        (forall|i: int|
            0 <= i < stream_routes().len() ==> (#[trigger] stream_routes()[i]).name != rest)
            ==> route_v2(caps, "stream::"@ + rest) is None,
        (forall|i: int|
            0 <= i < task_routes(caps).len() ==> (#[trigger] task_routes(caps)[i]).name != rest)
            ==> route_v2(caps, "task::"@ + rest) is None,
        (forall|i: int|
            0 <= i < gui_storage_routes().len() ==> (#[trigger] gui_storage_routes()[i]).name
                != rest) ==> route_v2(caps, "gui_storage::"@ + rest) is None,
{
    law_first_namespace_decides(caps, rest);
    if forall|i: int|
        0 <= i < stream_routes().len() ==> (#[trigger] stream_routes()[i]).name != rest {
        law_lookup_is_first_match(stream_routes(), rest);
    }
    if forall|i: int|
        0 <= i < task_routes(caps).len() ==> (#[trigger] task_routes(caps)[i]).name != rest {
        law_lookup_is_first_match(task_routes(caps), rest);
    }
    if forall|i: int|
        0 <= i < gui_storage_routes().len() ==> (#[trigger] gui_storage_routes()[i]).name
            != rest {
        law_lookup_is_first_match(gui_storage_routes(), rest);
    }
}

/// The text `prefix + rest` starts with `prefix`, and `rest` follows it.
pub proof fn lemma_after_own_prefix(prefix: Seq<char>, rest: Seq<char>)
    ensures
        after_prefix(prefix + rest, prefix) == Some(rest),
{
    let s = prefix + rest;
    assert(s.subrange(0, prefix.len() as int) =~= prefix);
    assert(s.skip(prefix.len() as int) =~= rest);
}

/// A text whose first character differs from that of `prefix` does not
/// start with `prefix`.
pub proof fn lemma_other_first_character(s: Seq<char>, prefix: Seq<char>)
    requires
        prefix.len() > 0,
        s.len() > 0,
        s[0] != prefix[0],
    ensures
        after_prefix(s, prefix) is None,
{
    if prefix.is_prefix_of(s) {
        assert(s.subrange(0, prefix.len() as int)[0] == prefix[0]);
    }
}

/// The namespace that a method name starts with decides alone where the
/// rest of the name is looked up. Whatever follows the first prefix, also
/// what looks like the prefix of another namespace, is only a name in the
/// table of the first. The `lightning::` namespace exists only in a
/// deployment that includes it.
pub proof fn law_first_namespace_decides(caps: Capabilities, rest: Seq<char>)
    ensures
        route_v2(caps, "stream::"@ + rest) == lookup(stream_routes(), rest),
        route_v2(caps, "task::"@ + rest) == lookup(task_routes(caps), rest),
        route_v2(caps, "gui_storage::"@ + rest) == lookup(gui_storage_routes(), rest),
        route_v2(caps, "experimental::"@ + rest) == experimental_route(rest),
        caps.lightning ==> route_v2(caps, "lightning::"@ + rest) == lookup(
            lightning_routes(),
            rest,
        ),
{
    reveal_strlit("stream::");
    reveal_strlit("task::");
    reveal_strlit("gui_storage::");
    reveal_strlit("experimental::");
    reveal_strlit("lightning::");
    lemma_after_own_prefix("stream::"@, rest);
    lemma_after_own_prefix("task::"@, rest);
    lemma_after_own_prefix("gui_storage::"@, rest);
    lemma_after_own_prefix("experimental::"@, rest);
    lemma_after_own_prefix("lightning::"@, rest);
    let task = "task::"@ + rest;
    lemma_other_first_character(task, "stream::"@);
    let gui = "gui_storage::"@ + rest;
    lemma_other_first_character(gui, "stream::"@);
    lemma_other_first_character(gui, "task::"@);
    let experimental = "experimental::"@ + rest;
    lemma_other_first_character(experimental, "stream::"@);
    lemma_other_first_character(experimental, "task::"@);
    lemma_other_first_character(experimental, "gui_storage::"@);
    let lightning = "lightning::"@ + rest;
    lemma_other_first_character(lightning, "stream::"@);
    lemma_other_first_character(lightning, "task::"@);
    lemma_other_first_character(lightning, "gui_storage::"@);
    lemma_other_first_character(lightning, "experimental::"@);
}

/// A method that starts with the prefix of a namespace is never looked up in
/// a namespace listed after it, nor in the top-level table.
pub proof fn law_namespaces_in_order(caps: Capabilities, method: Seq<char>)
    ensures
        after_prefix(method, "stream::"@) matches Some(rest) ==> route_v2(caps, method) == lookup(
            stream_routes(),
            rest,
        ),
        after_prefix(method, "stream::"@) is None ==> (after_prefix(method, "task::"@) matches Some(
            rest,
        ) ==> route_v2(caps, method) == lookup(task_routes(caps), rest)),
        after_prefix(method, "stream::"@) is None && after_prefix(method, "task::"@) is None ==> (
        after_prefix(method, "gui_storage::"@) matches Some(rest) ==> route_v2(caps, method)
            == lookup(gui_storage_routes(), rest)),
        after_prefix(method, "stream::"@) is None && after_prefix(method, "task::"@) is None
            && after_prefix(method, "gui_storage::"@) is None ==> (after_prefix(
            method,
            "experimental::"@,
        ) matches Some(rest) ==> route_v2(caps, method) == experimental_route(rest)),
{
}

/// A banned caller has no credential compared and no failure recorded,
/// whatever it sends. Where its request can be decoded and is not refused as
/// coming from another machine, the answer is `Banned`.
pub proof fn law_banned_before_credentials(
    before: DispatchContext,
    after: DispatchContext,
    raw: JsonData,
    client: ClientIdentity,
    local_only: bool,
    now: u64,
    r: Result<DispatchData, DispatcherError>,
)
    requires
        before.limiter.banned(client.ip, now),
        dispatch_step(before, after, raw, client, local_only, now, r),
    ensures
        after.gate.comparisons() == before.gate.comparisons(),
        after.limiter@ == before.limiter@,
        after.limiter.banned(client.ip, now),
        after.tasks.same_as(&before.tasks),
        r is Err,
        decoded(raw) matches Ok(envelope) ==> (r == Err::<DispatchData, DispatcherError>(
            DispatcherError::Banned,
        ) || (r == Err::<DispatchData, DispatcherError>(DispatcherError::LocalHostOnly)
            && local_only && !client.ip.is_loopback() && !before.gate.public_methods().contains(
            envelope.method,
        ))),
{
}

/// A public method is authorized without a credential and with any
/// credential whatever, and no caller that is not banned is turned away from
/// it.
pub proof fn law_public_method_needs_no_credential(
    public: Set<Seq<char>>,
    configured: Option<Seq<char>>,
    method: Seq<char>,
    credential: Option<Seq<char>>,
    loopback: bool,
    local_only: bool,
)
    requires
        public.contains(method),
    ensures
        verdict(public, configured, method, credential) == Ok::<(), AuthError>(()),
        admission(public, configured, false, loopback, local_only, method, credential) == Ok::<
            (),
            DispatcherError,
        >(()),
{
}

/// For a protected method the credential decides: the expected one is
/// authorized, a missing one is `CredentialMissing`, any other one is
/// `IncorrectCredential`.
pub proof fn law_protected_method_needs_credential(
    public: Set<Seq<char>>,
    configured: Seq<char>,
    method: Seq<char>,
    other: Seq<char>,
)
    requires
        !public.contains(method),
        other != configured,
    ensures
        verdict(public, Some(configured), method, Some(configured)) == Ok::<(), AuthError>(()),
        verdict(public, Some(configured), method, None) == Err::<(), AuthError>(
            AuthError::CredentialMissing,
        ),
        verdict(public, Some(configured), method, Some(other)) == Err::<(), AuthError>(
            AuthError::IncorrectCredential,
        ),
{
}

/// Only a wrong credential is counted. A request that is authorized, or that
/// carries no credential, leaves the limiter as it is; a wrong credential
/// adds exactly one to the failures of the caller's address that count at
/// that time, and changes the record of no other address.
pub proof fn law_wrong_credential_counts_once(
    before: DispatchContext,
    after: DispatchContext,
    raw: JsonData,
    client: ClientIdentity,
    local_only: bool,
    now: u64,
    r: Result<DispatchData, DispatcherError>,
)
    requires
        before.limiter.config().window > 0,
        dispatch_step(before, after, raw, client, local_only, now, r),
    ensures
        r != Err::<DispatchData, DispatcherError>(DispatcherError::IncorrectCredential)
            ==> after.limiter@ == before.limiter@,
        r == Err::<DispatchData, DispatcherError>(DispatcherError::IncorrectCredential)
            ==> after.limiter.failures(client.ip, now) == one_more(
            before.limiter.failures(client.ip, now),
        ),
        forall|other: IpAddress|
            other != client.ip ==> after.limiter.record(other) == before.limiter.record(other),
{
    lemma_one_failure_more(before.limiter.record(client.ip), before.limiter.config(), now);
}

/// One more failure adds one to the failures that count at the time.
pub proof fn lemma_one_failure_more(
    record: Option<FailureRecord>,
    config: RateLimitConfig,
    now: u64,
)
    requires
        config.window > 0,
    ensures
        counted_failures(Some(after_failure(record, config, now)), config, now) == one_more(
            counted_failures(record, config, now),
        ),
{
}

/// The life of a task. A task that was just created runs, and can be
/// cancelled or asked to wait for the user. A task that waits takes a user
/// action and runs again, holding what was supplied. A task that runs or
/// waits becomes `Cancelled` by `cancel`. A task in a final state refuses
/// `cancel` with `AlreadyTerminal`, takes no user action and no report.
pub proof fn law_task_lifecycle<I, P, A, R, E>(
    task: Task<I, P, A, R, E>,
    prompt: P,
    data: A,
    result: R,
    error: E,
    now: u64,
)
    ensures
        cancel_outcome(Some(TaskState::<P, R, E>::Running)) == Ok::<(), TaskError>(()),
        user_action_outcome(Some(TaskState::<P, R, E>::Running)) == Err::<(), TaskError>(
            TaskError::NotAwaitingAction,
        ),
        waiting(task, prompt).state == TaskState::<P, R, E>::AwaitingUserAction(prompt),
        user_action_outcome(Some(waiting(task, prompt).state)) == Ok::<(), TaskError>(()),
        cancel_outcome(Some(waiting(task, prompt).state)) == Ok::<(), TaskError>(()),
        resumed(task, data).state == TaskState::<P, R, E>::Running,
        resumed(task, data).action == Some(data),
        finished::<I, P, A, R, E>(TaskState::Cancelled, now).state == TaskState::<
            P,
            R,
            E,
        >::Cancelled,
        cancel_outcome(Some(finished::<I, P, A, R, E>(TaskState::Cancelled, now).state)) == Err::<
            (),
            TaskError,
        >(TaskError::AlreadyTerminal),
        cancel_outcome(Some(TaskState::<P, R, E>::Completed(result))) == Err::<(), TaskError>(
            TaskError::AlreadyTerminal,
        ),
        cancel_outcome(Some(TaskState::<P, R, E>::Failed(error))) == Err::<(), TaskError>(
            TaskError::AlreadyTerminal,
        ),
        report_outcome(Some(TaskState::<P, R, E>::Cancelled)) == Err::<(), TaskError>(
            TaskError::AlreadyTerminal,
        ),
        user_action_outcome(Some(TaskState::<P, R, E>::Completed(result))) == Err::<
            (),
            TaskError,
        >(TaskError::NotAwaitingAction),
{
}

/// An id that the registry has not given out names no task, and neither
/// does the id of a task that was reaped.
pub proof fn law_unknown_task<I, P, A, R, E>(
    registry: TaskRegistry<I, P, A, R, E>,
    id: u64,
    now: u64,
)
    requires
        registry.wf(),
    ensures
        id >= registry.issued() ==> !registry@.contains_key(id),
        registry@.contains_key(id) && registry@[id].expired(registry.retention(), now)
            ==> !unexpired(registry@, registry.retention(), now).contains_key(id),
        cancel_outcome(None::<TaskState<P, R, E>>) == Err::<(), TaskError>(TaskError::UnknownTask),
        user_action_outcome(None::<TaskState<P, R, E>>) == Err::<(), TaskError>(
            TaskError::UnknownTask,
        ),
{
    if registry@.contains_key(id) {
        registry.lemma_ids_below_issued(id);
    }
}

/// Reaping takes away only tasks in a final state, and those only when the
/// retention time has passed since they ended.
pub proof fn law_reaping_spares_live_tasks<I, P, A, R, E>(
    tasks: Map<u64, Task<I, P, A, R, E>>,
    retention: u64,
    now: u64,
    id: u64,
)
    requires
        tasks.contains_key(id),
        tasks[id].finished_at is None || (tasks[id].finished_at matches Some(t) && now < t
            + retention),
    ensures
        unexpired(tasks, retention, now).contains_key(id),
        unexpired(tasks, retention, now)[id] == tasks[id],
{
}

/// On the board too, an id that the operation has not given out names no
/// task: asking for its status is answered with `UnknownTask`.
pub proof fn law_status_of_unissued_task(
    before: TaskBoard,
    after: TaskBoard,
    operation: TaskOperation,
    params: JsonData,
    version: ProtocolVersion,
    id: Option<JsonData>,
    r: Result<DispatchData, DispatcherError>,
)
    requires
        before.wf(),
        task_id_of(params) matches Some(task) && task >= before.issued(operation),
        status_step(before, after, operation, params, version, id, r),
    ensures
        r == Err::<DispatchData, DispatcherError>(DispatcherError::Task(TaskError::UnknownTask)),
{
    let task = task_id_of(params)->0;
    if before.tasks(operation).contains_key(task) {
        before.lemma_ids_below_issued(operation, task);
    }
}

/// A task that a request has just started is known and running: the next
/// request for its status says so.
pub proof fn law_started_task_is_running(
    first: TaskBoard,
    second: TaskBoard,
    third: TaskBoard,
    operation: TaskOperation,
    input: JsonData,
    params: JsonData,
    version: ProtocolVersion,
    id: Option<JsonData>,
    started: Result<DispatchData, DispatcherError>,
    polled: Result<DispatchData, DispatcherError>,
)
    requires
        first.issued(operation) < u64::MAX,
        init_step(first, second, operation, input, version, id, started),
        task_id_of(params) == Some(first.issued(operation)),
        status_step(second, third, operation, params, version, id, polled),
    ensures
        started matches Ok(DispatchData::Start { task, .. }) && task.0 == first.issued(operation),
        polled == Ok::<DispatchData, DispatcherError>(
            DispatchData::Respond(
                success_response(status_report(TaskState::Running), version, id),
            ),
        ),
{
}

/// A task that was cancelled is `Cancelled` for every later request: its
/// status says so, and cancelling it again is refused with
/// `AlreadyTerminal`.
pub proof fn law_cancelled_task_stays_cancelled(
    first: TaskBoard,
    second: TaskBoard,
    third: TaskBoard,
    fourth: TaskBoard,
    operation: TaskOperation,
    params: JsonData,
    version: ProtocolVersion,
    id: Option<JsonData>,
    now: u64,
    later: u64,
    cancelled: Result<DispatchData, DispatcherError>,
    polled: Result<DispatchData, DispatcherError>,
    again: Result<DispatchData, DispatcherError>,
)
    requires
        cancelled is Ok,
        cancel_step(first, second, operation, params, version, id, now, cancelled),
        status_step(second, third, operation, params, version, id, polled),
        cancel_step(third, fourth, operation, params, version, id, later, again),
    ensures
        polled == Ok::<DispatchData, DispatcherError>(
            DispatchData::Respond(
                success_response(status_report(TaskState::Cancelled), version, id),
            ),
        ),
        again == Err::<DispatchData, DispatcherError>(
            DispatcherError::Task(TaskError::AlreadyTerminal),
        ),
        fourth.same_as(&second),
{
    assert(third.tasks(operation) == second.tasks(operation));
}

/// Asking for the status of a task changes nothing: asked again, the board
/// holds the same tasks and the answer is the same.
pub proof fn law_status_poll_changes_nothing(
    first: TaskBoard,
    second: TaskBoard,
    third: TaskBoard,
    operation: TaskOperation,
    params: JsonData,
    version: ProtocolVersion,
    id: Option<JsonData>,
    r1: Result<DispatchData, DispatcherError>,
    r2: Result<DispatchData, DispatcherError>,
)
    requires
        status_step(first, second, operation, params, version, id, r1),
        status_step(second, third, operation, params, version, id, r2),
    ensures
        third.same_as(&first),
        r2 == r1,
{
    assert(second.tasks(operation) == first.tasks(operation));
    assert(third.tasks(operation) == second.tasks(operation));
}

/// Every response carries the version and the correlation id of its
/// request, whether the request succeeded or failed.
pub proof fn law_response_carries_version_and_id(
    outcome: Result<JsonData, FailureData>,
    version: ProtocolVersion,
    id: Option<JsonData>,
)
    ensures
        response_to(outcome, version, id).body.member("mmrpc"@) == Some(
            JsonData::String(version.wire_text()),
        ),
        response_to(outcome, version, id).body.member("id"@) == Some(id_member(id)),
        outcome matches Ok(payload) ==> response_to(outcome, version, id).body.member("result"@)
            == Some(payload) && response_to(outcome, version, id).body.member("error"@) is None,
        outcome matches Err(failure) ==> response_to(outcome, version, id).status
            == failure.status && response_to(outcome, version, id).body.member("result"@) is None
            && response_to(outcome, version, id).body.member("error_type"@) == Some(
            JsonData::String(failure.error_type),
        ),
{
    reveal_strlit("mmrpc");
    reveal_strlit("id");
    reveal_strlit("result");
    reveal_strlit("error");
    reveal_strlit("error_path");
    reveal_strlit("error_trace");
    reveal_strlit("error_type");
    reveal_strlit("error_data");
    assert("mmrpc"@.len() == 5 && "id"@.len() == 2 && "result"@.len() == 6);
    assert("error"@.len() == 5 && "error_trace"@.len() == 11);
    assert("error_path"@.len() == 10 && "error_type"@.len() == 10 && "error_data"@.len() == 10);
    assert("mmrpc"@[0] != "error"@[0]);
    assert("error_type"@[6] != "error_data"@[6]);
    assert("error_type"@[6] != "error_path"@[6]);
    assert("mmrpc"@ != "id"@);
    assert("mmrpc"@ != "result"@);
    assert("mmrpc"@ != "error"@);
    assert("mmrpc"@ != "error_path"@);
    assert("mmrpc"@ != "error_trace"@);
    assert("mmrpc"@ != "error_type"@);
    assert("mmrpc"@ != "error_data"@);
    assert("id"@ != "result"@);
    assert("id"@ != "error"@);
    assert("id"@ != "error_path"@);
    assert("id"@ != "error_trace"@);
    assert("id"@ != "error_type"@);
    assert("id"@ != "error_data"@);
    assert("result"@ != "error"@);
    assert("result"@ != "error_path"@);
    assert("result"@ != "error_trace"@);
    assert("result"@ != "error_type"@);
    assert("result"@ != "error_data"@);
    assert("error"@ != "result"@);
    assert("error_type"@ != "error_data"@);
    assert("error_type"@ != "error"@);
    assert("error_type"@ != "error_path"@);
    assert("error_type"@ != "error_trace"@);
}

} // verus!
