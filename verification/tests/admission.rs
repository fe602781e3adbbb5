use rpc_dispatch::auth::{AuthError, AuthGate, PublicMethodSet};
use rpc_dispatch::board::TaskBoard;
use rpc_dispatch::client::{ClientIdentity, IpAddress};
use rpc_dispatch::dispatcher::{
    auth, check_admission, process_single_request, Dispatch, DispatchContext,
};
use rpc_dispatch::envelope::{ProtocolVersion, RequestEnvelope};
use rpc_dispatch::errors::DispatcherError;
use rpc_dispatch::limiter::{FailureRecord, RateLimitConfig, RateLimiter};
use rpc_dispatch::router::{Capabilities, Handler, Router, RpcMethod};

fn context() -> DispatchContext {
    let public = PublicMethodSet::new(vec!["version".to_string(), "get_enabled_coins".to_string()]);
    DispatchContext {
        gate: AuthGate::new(public, Some("secret".to_string())),
        limiter: RateLimiter::new(RateLimitConfig { max_failures: 2, window: 60, ban_duration: 300 }),
        router: Router::new(Capabilities { lightning: true, metamask: false, sia: false }),
        tasks: TaskBoard::new(600),
    }
}

fn local() -> ClientIdentity {
    ClientIdentity { ip: IpAddress::V4(127, 0, 0, 1), port: 4000 }
}

fn remote() -> ClientIdentity {
    ClientIdentity { ip: IpAddress::V4(203, 0, 113, 9), port: 4000 }
}

fn request(method: &str, credential: Option<&str>) -> RequestEnvelope {
    RequestEnvelope {
        protocol_version: ProtocolVersion::V2,
        method: method.to_string(),
        params: serde_json::Value::Null,
        correlation_id: None,
        credential: credential.map(|c| c.to_string()),
    }
}

fn raw(method: &str, credential: Option<&str>) -> serde_json::Value {
    let mut text = format!("{{\"mmrpc\":\"2.0\",\"method\":\"{}\"", method);
    if let Some(c) = credential {
        text.push_str(&format!(",\"userpass\":\"{}\"", c));
    }
    text.push('}');
    serde_json::from_str(&text).unwrap()
}

fn ban(ctx: &mut DispatchContext, client: &ClientIdentity, now: u64) {
    for _ in 0..3 {
        ctx.limiter.record_failure(client.ip, now);
    }
    assert!(ctx.limiter.is_banned(client.ip, now));
}

#[test]
fn loopback_addresses() {
    assert!(IpAddress::V4(127, 0, 0, 1).is_loopback());
    assert!(IpAddress::V4(127, 255, 3, 4).is_loopback());
    assert!(!IpAddress::V4(128, 0, 0, 1).is_loopback());
    assert!(!IpAddress::V4(10, 127, 0, 1).is_loopback());
    assert!(IpAddress::V6(1).is_loopback());
    assert!(!IpAddress::V6(0).is_loopback());
    assert!(!IpAddress::V6(0xffff_7f00_0001).is_loopback());
    assert_eq!(local().ip(), IpAddress::V4(127, 0, 0, 1));
}

#[test]
fn public_method_set_holds_its_names_only() {
    let set = PublicMethodSet::new(vec!["version".to_string(), "help".to_string()]);
    assert!(set.contains("version"));
    assert!(set.contains("help"));
    assert!(!set.contains("Version"));
    assert!(!set.contains(""));
    assert!(!PublicMethodSet::new(Vec::new()).contains("version"));
}

#[test]
fn public_method_needs_no_credential() {
    let mut ctx = context();
    assert_eq!(check_admission(&request("version", None), &mut ctx, &remote(), false, 10), Ok(()));
    assert_eq!(
        check_admission(&request("version", Some("garbage")), &mut ctx, &remote(), false, 10),
        Ok(())
    );
    assert_eq!(
        check_admission(&request("version", Some("garbage")), &mut ctx, &remote(), true, 10),
        Ok(())
    );
    assert_eq!(ctx.gate.comparison_count(), 0);
    assert_eq!(ctx.limiter.failure_count(remote().ip, 10), 0);
}

#[test]
fn protected_method_with_correct_credential() {
    let mut ctx = context();
    assert_eq!(
        check_admission(&request("withdraw", Some("secret")), &mut ctx, &remote(), false, 10),
        Ok(())
    );
    assert_eq!(ctx.gate.comparison_count(), 1);
    assert_eq!(ctx.limiter.failure_count(remote().ip, 10), 0);
}

#[test]
fn protected_method_without_credential() {
    let mut ctx = context();
    assert_eq!(
        check_admission(&request("withdraw", None), &mut ctx, &remote(), false, 10),
        Err(DispatcherError::CredentialMissing)
    );
    assert_eq!(ctx.gate.comparison_count(), 0);
    assert_eq!(ctx.limiter.failure_count(remote().ip, 10), 0);
    assert!(!ctx.limiter.is_banned(remote().ip, 10));
}

#[test]
fn protected_method_with_incorrect_credential() {
    let mut ctx = context();
    assert_eq!(
        check_admission(&request("withdraw", Some("guess")), &mut ctx, &remote(), false, 10),
        Err(DispatcherError::IncorrectCredential)
    );
    assert_eq!(ctx.gate.comparison_count(), 1);
    assert_eq!(ctx.limiter.failure_count(remote().ip, 10), 1);
    assert_eq!(ctx.limiter.failure_count(local().ip, 10), 0);
    assert_eq!(
        check_admission(&request("withdraw", Some("")), &mut ctx, &remote(), false, 11),
        Err(DispatcherError::IncorrectCredential)
    );
    assert_eq!(ctx.limiter.failure_count(remote().ip, 11), 2);
}

#[test]
fn an_unknown_protected_method_is_not_told_from_a_wrong_credential() {
    let mut ctx = context();
    assert_eq!(
        process_single_request(&mut ctx, &raw("no_such_method", Some("guess")), remote(), false, 10)
            .unwrap_err(),
        DispatcherError::IncorrectCredential
    );
    assert_eq!(
        process_single_request(&mut ctx, &raw("no_such_method", Some("secret")), remote(), false, 10)
            .unwrap_err(),
        DispatcherError::NoSuchMethod
    );
}

#[test]
fn unconfigured_credential_matches_only_the_empty_one() {
    let mut gate = AuthGate::new(PublicMethodSet::new(Vec::new()), None);
    let mut limiter =
        RateLimiter::new(RateLimitConfig { max_failures: 2, window: 60, ban_duration: 300 });
    let ip = remote().ip;
    assert_eq!(gate.authorize("withdraw", Some(""), ip, &mut limiter, 1), Ok(()));
    assert_eq!(
        gate.authorize("withdraw", Some("x"), ip, &mut limiter, 1),
        Err(AuthError::IncorrectCredential)
    );
    assert_eq!(gate.authorize("withdraw", None, ip, &mut limiter, 1), Err(AuthError::CredentialMissing));
    assert_eq!(limiter.failure_count(ip, 1), 1);
    assert_eq!(gate.comparison_count(), 2);
    assert!(!gate.is_public("withdraw"));
}

#[test]
fn auth_alone_decides_on_the_credential() {
    let mut ctx = context();
    assert_eq!(auth(&request("withdraw", Some("secret")), &mut ctx, &remote(), 5), Ok(()));
    assert_eq!(
        auth(&request("withdraw", Some("nope")), &mut ctx, &remote(), 5),
        Err(DispatcherError::IncorrectCredential)
    );
    assert_eq!(
        auth(&request("withdraw", None), &mut ctx, &remote(), 5),
        Err(DispatcherError::CredentialMissing)
    );
    assert_eq!(auth(&request("version", None), &mut ctx, &remote(), 5), Ok(()));
}

#[test]
fn banned_client_is_refused_before_any_comparison() {
    let mut ctx = context();
    ban(&mut ctx, &remote(), 100);
    let before = ctx.limiter.failure_count(remote().ip, 100);
    for credential in [Some("secret"), Some("guess"), None] {
        assert_eq!(
            check_admission(&request("withdraw", credential), &mut ctx, &remote(), false, 100),
            Err(DispatcherError::Banned)
        );
        assert_eq!(
            process_single_request(&mut ctx, &raw("withdraw", credential), remote(), false, 101)
                .unwrap_err(),
            DispatcherError::Banned
        );
    }
    assert_eq!(
        check_admission(&request("version", None), &mut ctx, &remote(), false, 100),
        Err(DispatcherError::Banned)
    );
    assert_eq!(ctx.gate.comparison_count(), 0);
    assert_eq!(ctx.limiter.failure_count(remote().ip, 100), before);
    assert_eq!(
        check_admission(&request("withdraw", Some("secret")), &mut ctx, &local(), false, 100),
        Ok(())
    );
}

#[test]
fn ban_ends_after_its_duration() {
    let mut ctx = context();
    ban(&mut ctx, &remote(), 100);
    assert!(ctx.limiter.is_banned(remote().ip, 399));
    assert!(!ctx.limiter.is_banned(remote().ip, 400));
    assert_eq!(
        check_admission(&request("withdraw", Some("secret")), &mut ctx, &remote(), false, 400),
        Ok(())
    );
}

#[test]
fn local_only_refuses_remote_callers_of_protected_methods() {
    let mut ctx = context();
    assert_eq!(
        check_admission(&request("withdraw", Some("secret")), &mut ctx, &remote(), true, 10),
        Err(DispatcherError::LocalHostOnly)
    );
    assert_eq!(
        check_admission(&request("withdraw", Some("secret")), &mut ctx, &local(), true, 10),
        Ok(())
    );
    assert_eq!(check_admission(&request("version", None), &mut ctx, &remote(), true, 10), Ok(()));
    assert_eq!(ctx.gate.comparison_count(), 1);
    ban(&mut ctx, &remote(), 20);
    assert_eq!(
        check_admission(&request("withdraw", Some("secret")), &mut ctx, &remote(), true, 20),
        Err(DispatcherError::LocalHostOnly)
    );
}

#[test]
fn failures_are_counted_within_the_window() {
    let config = RateLimitConfig { max_failures: 2, window: 60, ban_duration: 300 };
    let mut limiter = RateLimiter::new(config);
    let ip = IpAddress::V6(0x2001_0db8);
    assert_eq!(limiter.failure_count(ip, 0), 0);
    limiter.record_failure(ip, 100);
    assert_eq!(limiter.failure_count(ip, 100), 1);
    assert_eq!(limiter.failure_count(ip, 159), 1);
    assert_eq!(limiter.failure_count(ip, 160), 0);
    assert_eq!(limiter.failure_count(ip, 99), 0);
    limiter.record_failure(ip, 130);
    assert_eq!(limiter.failure_count(ip, 130), 2);
    assert!(!limiter.is_banned(ip, 130));
    limiter.record_failure(ip, 170);
    assert_eq!(limiter.failure_count(ip, 170), 1);
    assert!(!limiter.is_banned(ip, 170));
    limiter.record_failure(ip, 171);
    limiter.record_failure(ip, 172);
    assert_eq!(limiter.failure_count(ip, 172), 3);
    assert!(limiter.is_banned(ip, 172));
    assert!(limiter.is_banned(ip, 471));
    assert!(!limiter.is_banned(ip, 472));
    assert!(!limiter.is_banned(IpAddress::V6(0x2001_0db9), 172));
}

#[test]
fn ban_time_stops_at_the_largest_time() {
    let config = RateLimitConfig { max_failures: 0, window: 10, ban_duration: u64::MAX };
    let mut limiter = RateLimiter::new(config);
    let ip = IpAddress::V4(10, 0, 0, 1);
    limiter.record_failure(ip, 5);
    assert!(limiter.is_banned(ip, 5));
    assert!(limiter.is_banned(ip, u64::MAX - 1));
    assert!(!limiter.is_banned(ip, u64::MAX));
    let _ = FailureRecord { failures: 0, window_start: 0, banned_until: 0 };
}

#[test]
fn admitted_request_reaches_the_router() {
    let mut ctx = context();
    match process_single_request(&mut ctx, &raw("withdraw", Some("secret")), remote(), false, 10) {
        Ok(Dispatch::Invoke(invocation)) => {
            assert_eq!(invocation.handler, Handler::Rpc(RpcMethod::Withdraw));
            assert_eq!(invocation.protocol_version, ProtocolVersion::V2);
            assert_eq!(invocation.params, serde_json::Value::Null);
            assert_eq!(invocation.correlation_id, None);
        },
        other => panic!("{:?}", other),
    }
    assert_eq!(
        process_single_request(&mut ctx, &raw("version", None), remote(), false, 10).unwrap_err(),
        DispatcherError::NoSuchMethod
    );
}
