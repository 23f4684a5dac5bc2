use granite_client::client::decision_from_request;
use granite_client::headers;
use granite_client::{
    ApprovalRequest, ApprovalRequestStatus, ApprovalRequestType, ApprovalRiskLevel,
    CreateApprovalRequest, DestructiveIntent, Environment, GraniteError,
    PurgeKind, Uuid, VerifyGrantRequest,
};

fn uuid(text: &str) -> Uuid {
    Uuid(uuid::Uuid::parse_str(text).unwrap().as_u128())
}

fn decode_status(json: &str) -> Option<ApprovalRequestStatus> {
    let name: String = serde_json::from_str(json).unwrap();
    ApprovalRequestStatus::from_wire(&name)
}

/// A request record with the fields a minimal Granite body carries; the
/// fields the body leaves out take their defaults.
fn record(
    id: &str,
    owner_uid: &str,
    requester_app_id: &str,
    title: &str,
    summary: &str,
    requested_action: &str,
    requested_resource: &str,
    status: &str,
) -> ApprovalRequest {
    ApprovalRequest {
        id: uuid(id),
        owner_uid: owner_uid.to_owned(),
        requester_app_id: requester_app_id.to_owned(),
        requester_agent_id: None,
        requester_chirp_sub: None,
        request_type: ApprovalRequestType::default(),
        title: title.to_owned(),
        summary: summary.to_owned(),
        risk_level: ApprovalRiskLevel::default(),
        requested_action: requested_action.to_owned(),
        requested_resource: requested_resource.to_owned(),
        requested_scopes: Vec::new(),
        status: ApprovalRequestStatus::from_wire(status).expect("known status"),
        grant_id: None,
        trace_id: None,
        decision_reason: None,
        environment: Environment::default(),
    }
}

fn request_with_status(status: &str) -> ApprovalRequest {
    let mut r = record(
        "00000000-0000-0000-0000-000000000001",
        "owner1",
        "drive",
        "delete files",
        "remove three files",
        "delete",
        "storage:drive:/sites/x",
        status,
    );
    r.decision_reason = Some("those files are still needed".to_owned());
    r
}

#[test]
fn pending_request_yields_no_decision() {
    assert!(decision_from_request(request_with_status("pending")).is_none());
}

#[test]
fn approved_maps_to_approved_decision() {
    let decision =
        decision_from_request(request_with_status("approved")).expect("approved is terminal");
    assert!(decision.is_approved());
}

#[test]
fn denied_maps_to_denied_decision_and_surfaces_reason() {
    let decision =
        decision_from_request(request_with_status("denied")).expect("denied is terminal");
    assert!(!decision.is_approved());
    assert_eq!(decision.reason(), Some("those files are still needed"));
}

#[test]
fn approval_request_status_decodes_known_values() {
    for (s, want) in [
        ("\"pending\"", ApprovalRequestStatus::Pending),
        ("\"approved\"", ApprovalRequestStatus::Approved),
        ("\"denied\"", ApprovalRequestStatus::Denied),
    ] {
        let got = decode_status(s).unwrap();
        assert_eq!(got, want);
    }
}

#[test]
fn unknown_approval_status_is_a_loud_decode_error() {
    let err = decode_status("\"rejected\"");
    assert!(err.is_none(), "unknown status must not deserialize");
}

#[test]
fn granite_body_fields_read_through_wire_names() {
    let mut req = record(
        "11111111-1111-1111-1111-111111111111",
        "alice",
        "amber",
        "Permanently drop table foo",
        "cleanup",
        "drop_table",
        "amber:table:foo",
        "pending",
    );
    req.request_type = ApprovalRequestType::from_wire("one_time_action").unwrap();
    req.risk_level = ApprovalRiskLevel::from_wire("high").unwrap();
    assert_eq!(req.status, ApprovalRequestStatus::Pending);
    assert_eq!(req.requester_app_id, "amber");
    assert!(!req.status.is_terminal());
    // A body without `environment` reads as Prod.
    assert_eq!(req.environment, Environment::Prod);
}

#[test]
fn environment_defaults_to_prod_and_gates_cross_env_isolation() {
    let base = record(
        "11111111-1111-1111-1111-111111111111",
        "alice",
        "drive",
        "Permanently erase owner",
        "crypto-shred",
        "crypto_shred",
        "drive:owner:alice",
        "approved",
    );

    // Untagged approval: the strictest reading, Prod.
    let untagged = base.clone();
    assert_eq!(untagged.environment, Environment::Prod);

    let test_env = Environment::Test { tenant: "acme".into() };
    let mut req = base.clone();
    req.environment = test_env.clone();
    assert_eq!(req.environment, test_env);

    // Isolation: an approval only authorizes an action in its own environment.
    assert!(req.assert_environment(&test_env).is_ok());
    assert!(
        matches!(
            req.assert_environment(&Environment::Prod),
            Err(GraniteError::EnvironmentMismatch { .. })
        ),
        "a Test approval must NOT authorize a Prod action"
    );
    assert!(
        untagged.assert_environment(&test_env).is_err(),
        "a Prod approval must NOT be settled by a Test caller"
    );
    assert!(untagged.assert_environment(&Environment::Prod).is_ok());
}

#[test]
fn default_create_request_has_no_app_id_and_medium_risk() {
    let mut req = CreateApprovalRequest::default();
    req.request_type = ApprovalRequestType::OneTimeAction;
    req.title = "t".into();
    req.summary = "s".into();
    req.requested_action = "a".into();
    req.requested_resource = "r".into();
    assert!(req.requester_app_id.is_none());
    assert_eq!(req.request_type.as_wire(), "one_time_action");
    assert_eq!(req.risk_level.as_wire(), "medium");
}

#[test]
fn row_purge_carries_its_rid_inside_the_variant() {
    let intent = DestructiveIntent::row("amber", "ledger", 42)
        .with_reason("agent cleanup")
        .with_agent_id("agent-1");
    assert_eq!(intent.kind, PurgeKind::Row { rid: 42 });
    assert_eq!(intent.resource_ref(), "amber:row:ledger#42");
    assert_eq!(intent.kind.action(), "purge_row");

    let req = intent.to_approval_request();
    assert_eq!(req.request_type, ApprovalRequestType::OneTimeAction);
    assert_eq!(req.risk_level, ApprovalRiskLevel::High);
    assert_eq!(req.requested_action, "purge_row");
    assert_eq!(req.requested_resource, "amber:row:ledger#42");
    assert_eq!(req.requester_agent_id.as_deref(), Some("agent-1"));
    assert_eq!(req.summary, "agent cleanup");
    // App-credentialled callers let Granite bind the app id.
    assert!(req.requester_app_id.is_none());
}

#[test]
fn table_purge_has_no_rid_and_maps_to_drop_table() {
    let intent = DestructiveIntent::table("amber", "ledger");
    assert_eq!(intent.kind, PurgeKind::Table);
    assert_eq!(intent.resource_ref(), "amber:table:ledger");
    let req = intent.to_approval_request();
    assert_eq!(req.requested_action, "drop_table");
    assert_eq!(req.requested_resource, "amber:table:ledger");
    assert_eq!(
        req.summary, "Permanent removal requested by an agent.",
        "default summary when no reason given"
    );
}

#[test]
fn verify_grant_request_builder_sets_only_named_fields() {
    let id = Uuid(uuid::Uuid::nil().as_u128());
    let req = VerifyGrantRequest::for_grant(id)
        .with_resource("drive:files")
        .with_scopes(vec!["drive.read".to_owned()]);
    assert_eq!(req.grant_id, Some(id));
    assert_eq!(req.resource.as_deref(), Some("drive:files"));
    assert_eq!(req.scopes, vec!["drive.read".to_owned()]);
    // request_id / subject fields are None -> absent.
    assert!(req.request_id.is_none());
    assert!(req.subject_chirp_sub.is_none());
}

#[test]
fn header_constants_match_granite_policy() {
    assert_eq!(headers::USER_ID, "x-user-id");
    assert_eq!(headers::USER_CAN_WRITE, "x-user-can-write");
    assert_eq!(headers::GRANITE_APP_ID, "x-granite-app-id");
    assert_eq!(headers::AGENT_ID, "x-agent-id");
    assert_eq!(headers::can_write_value(true), "true");
    assert_eq!(headers::can_write_value(false), "false");
}
