use granite_client::client::{
    await_step, check_status, decision_from_request, next_await_step, AwaitStep, Header, Method,
};
use granite_client::text::{str_equal, trim_end};
use granite_client::{
    ActingUser, ApprovalGrantStatus, ApprovalRequest, ApprovalRequestStatus, ApprovalRequestType,
    ApprovalRiskLevel, Auth, AwaitConfig, DestructiveIntent, Environment, GraniteClient,
    GraniteError, Span, Uuid, VerifyGrantRequest,
};

fn sample_request(status: ApprovalRequestStatus) -> ApprovalRequest {
    ApprovalRequest {
        id: Uuid(7),
        owner_uid: "alice".into(),
        requester_app_id: "amber".into(),
        requester_agent_id: None,
        requester_chirp_sub: None,
        request_type: ApprovalRequestType::OneTimeAction,
        title: "t".into(),
        summary: "s".into(),
        risk_level: ApprovalRiskLevel::High,
        requested_action: "drop_table".into(),
        requested_resource: "amber:table:foo".into(),
        requested_scopes: Vec::new(),
        status,
        grant_id: None,
        trace_id: None,
        decision_reason: None,
        environment: Environment::Prod,
    }
}

fn pairs(headers: &[Header]) -> Vec<(String, String)> {
    headers.iter().map(|h| (h.name.clone(), h.value.clone())).collect()
}

fn owned_pairs(list: &[(&str, &str)]) -> Vec<(String, String)> {
    list.iter().map(|(a, b)| (a.to_string(), b.to_string())).collect()
}

#[test]
fn negative_and_extreme_row_ids_render_in_decimal() {
    let intent = DestructiveIntent::row("amber", "ledger", -7);
    assert_eq!(intent.resource_ref(), "amber:row:ledger#-7");
    assert_eq!(intent.title(), "Permanently delete ledger#-7");
    let intent = DestructiveIntent::row("amber", "t", i64::MIN);
    assert_eq!(intent.resource_ref(), format!("amber:row:t#{}", i64::MIN));
    let intent = DestructiveIntent::row("amber", "t", i64::MAX);
    assert_eq!(intent.resource_ref(), format!("amber:row:t#{}", i64::MAX));
    let intent = DestructiveIntent::row("amber", "t", 0);
    assert_eq!(intent.resource_ref(), "amber:row:t#0");
    let intent = DestructiveIntent::row("amber", "t", 1000);
    assert_eq!(intent.resource_ref(), "amber:row:t#1000");
}

#[test]
fn titles_name_the_target() {
    assert_eq!(DestructiveIntent::row("a", "ledger", 42).title(), "Permanently delete ledger#42");
    assert_eq!(DestructiveIntent::table("a", "ledger").title(), "Permanently drop table ledger");
    let req = DestructiveIntent::table("amber", "foo").to_approval_request();
    assert_eq!(req.title, "Permanently drop table foo");
    assert!(req.requester_agent_id.is_none());
    assert!(req.requested_scopes.is_empty());
}

#[test]
fn prefixes_keep_refs_of_two_products_apart() {
    let a = DestructiveIntent::table("amber", "foo").resource_ref();
    let d = DestructiveIntent::table("drive", "foo").resource_ref();
    assert_ne!(a, d);
    let row = DestructiveIntent::row("amber", "foo", 1).resource_ref();
    assert_ne!(a, row);
}

#[test]
fn builders_replace_only_their_field() {
    let i = DestructiveIntent::table("p", "t").with_reason("one").with_reason("two");
    assert_eq!(i.reason.as_deref(), Some("two"));
    assert_eq!(i.kind, granite_client::PurgeKind::Table);
    assert!(i.agent_id.is_none());
    let r = VerifyGrantRequest::for_request(Uuid(9)).with_subject_chirp_sub("sub-1");
    assert_eq!(r.request_id, Some(Uuid(9)));
    assert!(r.grant_id.is_none());
    assert_eq!(r.subject_chirp_sub.as_deref(), Some("sub-1"));
    let u = ActingUser::writer("bob").with_agent_id("agent-9");
    assert!(u.can_write);
    assert_eq!(u.uid, "bob");
    assert_eq!(u.agent_id.as_deref(), Some("agent-9"));
    let ro = ActingUser::read_only("carol");
    assert!(!ro.can_write);
    assert!(ro.agent_id.is_none());
}

#[test]
fn every_enum_round_trips_its_wire_name() {
    for t in [
        ApprovalRequestType::OneTimeAction,
        ApprovalRequestType::CapabilityGrant,
        ApprovalRequestType::StorageGrant,
        ApprovalRequestType::DelegationGrant,
    ] {
        assert_eq!(ApprovalRequestType::from_wire(t.as_wire()), Some(t));
    }
    for r in [ApprovalRiskLevel::Low, ApprovalRiskLevel::Medium, ApprovalRiskLevel::High] {
        assert_eq!(ApprovalRiskLevel::from_wire(r.as_wire()), Some(r));
    }
    for g in [ApprovalGrantStatus::Active, ApprovalGrantStatus::Revoked] {
        assert_eq!(ApprovalGrantStatus::from_wire(g.as_wire()), Some(g));
    }
    assert_eq!(ApprovalRequestType::StorageGrant.as_wire(), "storage_grant");
    assert_eq!(ApprovalGrantStatus::Revoked.as_wire(), "revoked");
    assert_eq!(ApprovalRequestStatus::Denied.as_wire(), "denied");
}

#[test]
fn near_misses_of_wire_names_are_refused() {
    assert_eq!(ApprovalRequestStatus::from_wire("Pending"), None);
    assert_eq!(ApprovalRequestStatus::from_wire("pending "), None);
    assert_eq!(ApprovalRequestStatus::from_wire(""), None);
    assert_eq!(ApprovalRiskLevel::from_wire("critical"), None);
    assert_eq!(ApprovalRequestType::from_wire("one-time-action"), None);
    assert_eq!(ApprovalGrantStatus::from_wire("expired"), None);
}

#[test]
fn base_url_trailing_slashes_are_dropped() {
    let c = GraniteClient::new("https://granite.example//", Auth::InternalServiceToken("t".into()));
    assert_eq!(c.base_url(), "https://granite.example");
    assert_eq!(c.url("/v1/grants/verify"), "https://granite.example/v1/grants/verify");
    let c = GraniteClient::new("https://granite.example", Auth::InternalServiceToken("t".into()));
    assert_eq!(c.base_url(), "https://granite.example");
    assert_eq!(trim_end("///", '/'), "");
    assert_eq!(trim_end("a/b/", '/'), "a/b");
}

#[test]
fn internal_token_sends_no_app_id_header() {
    let c = GraniteClient::new("https://g.example/", Auth::InternalServiceToken("op-token".into()));
    let call = c.prepare_create_approval_request(&ActingUser::writer("alice"));
    assert_eq!(call.method, Method::Post);
    assert_eq!(call.url, "https://g.example/v1/approval-requests");
    assert_eq!(call.bearer_token, "op-token");
    assert_eq!(
        pairs(&call.headers),
        owned_pairs(&[("x-user-id", "alice"), ("x-user-can-write", "true")])
    );
}

#[test]
fn app_credential_sends_app_id_and_agent_headers() {
    let auth = Auth::AppCredential { secret: "gas_secret".into(), app_id: "amber".into() };
    let c = GraniteClient::new("https://g.example", auth);
    let user = ActingUser::read_only("bob").with_agent_id("agent-1");
    let call = c.prepare_verify_grant(&user);
    assert_eq!(call.url, "https://g.example/v1/grants/verify");
    assert_eq!(call.bearer_token, "gas_secret");
    assert_eq!(
        pairs(&call.headers),
        owned_pairs(&[
            ("x-user-id", "bob"),
            ("x-user-can-write", "false"),
            ("x-granite-app-id", "amber"),
            ("x-agent-id", "agent-1"),
        ])
    );
}

#[test]
fn record_paths_carry_the_hyphenated_uuid() {
    let c = GraniteClient::new("https://g.example", Auth::InternalServiceToken("t".into()));
    let user = ActingUser::read_only("alice");
    let id = Uuid(0x0123_4567_89ab_cdef_fedc_ba98_7654_3210);
    let get = c.prepare_get_approval_request(&user, id);
    assert_eq!(get.method, Method::Get);
    assert_eq!(
        get.url,
        "https://g.example/v1/approval-requests/01234567-89ab-cdef-fedc-ba9876543210"
    );
    let revoke = c.prepare_revoke_grant(&user, Uuid(1));
    assert_eq!(
        revoke.url,
        "https://g.example/v1/grants/00000000-0000-0000-0000-000000000001/revoke"
    );
    let project = c.prepare_verify_project_grant(&user, Uuid(u128::MAX));
    assert_eq!(
        project.url,
        "https://g.example/v1/projects/ffffffff-ffff-ffff-ffff-ffffffffffff/grants/verify"
    );
}

#[test]
fn only_2xx_statuses_pass_the_body_on() {
    assert_eq!(check_status(200, "{}".into()).ok().as_deref(), Some("{}"));
    assert_eq!(check_status(299, "x".into()).ok().as_deref(), Some("x"));
    for status in [199u16, 300, 403, 404, 500] {
        match check_status(status, "nope".into()) {
            Err(GraniteError::Status { status: s, body }) => {
                assert_eq!(s, status);
                assert_eq!(body, "nope");
            }
            other => panic!("unexpected {:?}", other),
        }
    }
}

#[test]
fn environment_mismatch_names_both_sides() {
    let mut req = sample_request(ApprovalRequestStatus::Approved);
    req.environment = Environment::Test { tenant: "acme".into() };
    match req.assert_environment(&Environment::Prod) {
        Err(GraniteError::EnvironmentMismatch { expected, found }) => {
            assert_eq!(expected, "prod");
            assert_eq!(found, "test:acme");
        }
        other => panic!("unexpected {:?}", other),
    }
    assert!(req.assert_environment(&Environment::Test { tenant: "acme".into() }).is_ok());
    assert!(req.assert_environment(&Environment::Test { tenant: "other".into() }).is_err());
    assert_eq!(Environment::default(), Environment::Prod);
}

#[test]
fn await_steps_follow_the_poll_and_the_deadline() {
    let config = AwaitConfig { interval: Span { nanos: 10_000_000 }, timeout: Some(Span::from_secs(1)) };
    let decided = decision_from_request(sample_request(ApprovalRequestStatus::Denied));
    match await_step(decided, true, &config) {
        AwaitStep::Finished(Ok(d)) => assert!(!d.is_approved()),
        other => panic!("unexpected {:?}", other),
    }
    match await_step(None, false, &config) {
        AwaitStep::Sleep(d) => assert_eq!(d, Span { nanos: 10_000_000 }),
        other => panic!("unexpected {:?}", other),
    }
    match await_step(None, true, &config) {
        AwaitStep::Finished(Err(GraniteError::Timeout(t))) => assert_eq!(t, Span::from_secs(1)),
        other => panic!("unexpected {:?}", other),
    }
    match next_await_step(Ok(None), Span::from_secs(2), &config) {
        AwaitStep::Finished(Err(GraniteError::Timeout(t))) => assert_eq!(t.nanos, 1_000_000_000),
        other => panic!("unexpected {:?}", other),
    }
    match next_await_step(Ok(None), Span::from_secs(1), &config) {
        AwaitStep::Finished(Err(GraniteError::Timeout(_))) => {}
        other => panic!("unexpected {:?}", other),
    }
    match next_await_step(Ok(None), Span { nanos: 999_999_999 }, &config) {
        AwaitStep::Sleep(_) => {}
        other => panic!("unexpected {:?}", other),
    }
    let forever = AwaitConfig::default();
    assert_eq!(forever.interval, Span { nanos: 3_000_000_000 });
    assert!(forever.timeout.is_none());
    match next_await_step(Ok(None), Span::from_secs(100_000), &forever) {
        AwaitStep::Sleep(d) => assert_eq!(d, Span::from_secs(3)),
        other => panic!("unexpected {:?}", other),
    }
}

#[test]
fn a_failed_poll_ends_the_wait_with_its_error() {
    let config = AwaitConfig { interval: Span::from_secs(3), timeout: None };
    let failed = Err(GraniteError::Status { status: 503, body: "busy".into() });
    match next_await_step(failed, Span { nanos: 0 }, &config) {
        AwaitStep::Finished(Err(GraniteError::Status { status, body })) => {
            assert_eq!(status, 503);
            assert_eq!(body, "busy");
        }
        other => panic!("unexpected {:?}", other),
    }
}

#[test]
fn zero_timeout_ends_the_wait_after_one_pending_poll() {
    let config = AwaitConfig { interval: Span::from_secs(3), timeout: Some(Span { nanos: 0 }) };
    match next_await_step(Ok(None), Span { nanos: 0 }, &config) {
        AwaitStep::Finished(Err(GraniteError::Timeout(t))) => assert_eq!(t, Span { nanos: 0 }),
        other => panic!("unexpected {:?}", other),
    }
    let approved = decision_from_request(sample_request(ApprovalRequestStatus::Approved));
    match next_await_step(Ok(approved), Span { nanos: 0 }, &config) {
        AwaitStep::Finished(Ok(d)) => assert!(d.is_approved()),
        other => panic!("unexpected {:?}", other),
    }
}

#[test]
fn pending_is_the_only_non_terminal_status() {
    assert!(!ApprovalRequestStatus::Pending.is_terminal());
    assert!(ApprovalRequestStatus::Approved.is_terminal());
    assert!(ApprovalRequestStatus::Denied.is_terminal());
    let d = decision_from_request(sample_request(ApprovalRequestStatus::Approved)).unwrap();
    assert!(d.is_approved());
    assert_eq!(d.request().requested_resource, "amber:table:foo");
    assert_eq!(d.reason(), None);
}

#[test]
fn string_comparison_is_exact() {
    assert!(str_equal("abc", "abc"));
    assert!(!str_equal("abc", "abd"));
    assert!(!str_equal("abc", "ab"));
    assert!(str_equal("", ""));
}
