//! The Granite wire contract: request and response bodies, their enums and
//! the exact wire names of those enums.
//!
//! The one deliberately strict spot is [`ApprovalRequestStatus::from_wire`]:
//! a status name that is not one of the three known ones is refused, never
//! read as "pending".

use vstd::prelude::*;

use crate::error::GraniteError;
use crate::text::{owned, str_equal};

verus! {

/// A JSON value that the client carries through without reading it.
#[verifier::external_type_specification]
#[verifier::external_body]
pub struct ExJsonValue(serde_json::Value);

// ---------------------------------------------------------------------------
// Identifiers
// ---------------------------------------------------------------------------

/// A UUID, held as its 128-bit value (the first byte of the UUID is the most
/// significant byte of the value).
#[derive(Debug, Clone, Copy, PartialEq, Eq, Structural)]
pub struct Uuid(pub u128);

/// The lower-case hexadecimal digit for `n` (`0 <= n < 16`).
pub open spec fn hex_digit(n: u128) -> char {
    if n < 10 {
        (48 + n) as char
    } else {
        (87 + n) as char
    }
}

/// The `k`-th hexadecimal digit of `v`, counting from the most significant
/// (`0 <= k < 32`).
pub open spec fn hex_nibble(v: u128, k: int) -> u128 {
    (v >> ((124 - 4 * k) as u128)) & 15u128
}

/// The canonical text of a UUID: 32 lower-case hex digits, most significant
/// first, grouped 8-4-4-4-12 and joined by hyphens.
pub open spec fn hyphenated_text(v: u128) -> Seq<char> {
    Seq::new(
        36,
        |i: int|
            if i == 8 || i == 13 || i == 18 || i == 23 {
                '-'
            } else {
                hex_digit(
                    hex_nibble(
                        v,
                        if i < 8 {
                            i
                        } else if i < 13 {
                            i - 1
                        } else if i < 18 {
                            i - 2
                        } else if i < 23 {
                            i - 3
                        } else {
                            i - 4
                        },
                    ),
                )
            },
    )
}

/// The canonical text of a UUID.
/// Calls the `uuid` crate: `Uuid::from_u128` (which takes the value's bytes
/// most significant first) and its `Display`, which writes the hyphenated
/// lower-case form; the contract states that form.
#[verifier::external_body]
pub(crate) fn uuid_text(id: Uuid) -> (r: String)
    ensures
        r@ == hyphenated_text(id.0),
{
    uuid::Uuid::from_u128(id.0).to_string()
}

// ---------------------------------------------------------------------------
// Enums of the wire contract
// ---------------------------------------------------------------------------

/// The shape of approval Granite is being asked to grant.
#[derive(Debug, Clone, Copy, PartialEq, Eq, Structural)]
pub enum ApprovalRequestType {
    /// A single action approved once, creating no standing grant.
    OneTimeAction,
    /// A standing capability grant.
    CapabilityGrant,
    /// A standing storage grant over a storage resource ref.
    StorageGrant,
    /// A delegation grant.
    DelegationGrant,
}

impl Default for ApprovalRequestType {
    fn default() -> (r: Self)
        ensures
            r == ApprovalRequestType::OneTimeAction,
    {
        ApprovalRequestType::OneTimeAction
    }
}

impl ApprovalRequestType {
    /// The name of the variant on the wire.
    pub open spec fn wire_name(self) -> Seq<char> {
        match self {
            ApprovalRequestType::OneTimeAction => "one_time_action"@,
            ApprovalRequestType::CapabilityGrant => "capability_grant"@,
            ApprovalRequestType::StorageGrant => "storage_grant"@,
            ApprovalRequestType::DelegationGrant => "delegation_grant"@,
        }
    }

    /// The name of the variant on the wire.
    pub fn as_wire(&self) -> (r: &'static str)
        ensures
            r@ == self.wire_name(),
    {
        match self {
            ApprovalRequestType::OneTimeAction => "one_time_action",
            ApprovalRequestType::CapabilityGrant => "capability_grant",
            ApprovalRequestType::StorageGrant => "storage_grant",
            ApprovalRequestType::DelegationGrant => "delegation_grant",
        }
    }

    /// The variant with the given wire name; `None` for any other text.
    pub fn from_wire(s: &str) -> (r: Option<Self>)
        ensures
            match r {
                Some(v) => s@ == v.wire_name(),
                None => forall|v: Self| s@ != #[trigger] v.wire_name(),
            },
            forall|v: Self| s@ == #[trigger] v.wire_name() ==> r == Some(v),
    {
        let r = if str_equal(s, "one_time_action") {
            Some(ApprovalRequestType::OneTimeAction)
        } else if str_equal(s, "capability_grant") {
            Some(ApprovalRequestType::CapabilityGrant)
        } else if str_equal(s, "storage_grant") {
            Some(ApprovalRequestType::StorageGrant)
        } else if str_equal(s, "delegation_grant") {
            Some(ApprovalRequestType::DelegationGrant)
        } else {
            assert forall|v: Self| s@ != #[trigger] v.wire_name() by {
                match v {
                    ApprovalRequestType::OneTimeAction => {},
                    ApprovalRequestType::CapabilityGrant => {},
                    ApprovalRequestType::StorageGrant => {},
                    ApprovalRequestType::DelegationGrant => {},
                }
            }
            None
        };
        proof {
            assert forall|v: Self| s@ == #[trigger] v.wire_name() implies r == Some(v) by {
                if let Some(w) = r {
                    Self::lemma_wire_names_distinct(v, w);
                }
            }
        }
        r
    }

    /// Distinct variants have distinct wire names, so reading a written name
    /// gives back the variant that was written.
    pub proof fn lemma_wire_names_distinct(a: Self, b: Self)
        ensures
            a.wire_name() == b.wire_name() ==> a == b,
    {
        reveal_strlit("one_time_action");
        reveal_strlit("capability_grant");
        reveal_strlit("storage_grant");
        reveal_strlit("delegation_grant");
        if a != b {
            assert(a.wire_name()[0] != b.wire_name()[0]);
        }
    }
}

/// Each request type's wire name is its snake_case name.
pub proof fn lemma_request_type_wire_names()
    ensures
        ApprovalRequestType::OneTimeAction.wire_name() == "one_time_action"@,
        ApprovalRequestType::CapabilityGrant.wire_name() == "capability_grant"@,
        ApprovalRequestType::StorageGrant.wire_name() == "storage_grant"@,
        ApprovalRequestType::DelegationGrant.wire_name() == "delegation_grant"@,
{
}

/// The lifecycle state of an approval request.
///
/// Deliberately strict: it has no default and no catch-all variant.
#[derive(Debug, Clone, Copy, PartialEq, Eq, Structural)]
pub enum ApprovalRequestStatus {
    /// Awaiting a human decision.
    Pending,
    /// The user approved it.
    Approved,
    /// The user denied it.
    Denied,
}

impl ApprovalRequestStatus {
    /// Whether the request has reached a terminal (decided) state.
    pub fn is_terminal(self) -> (r: bool)
        ensures
            r == (self == ApprovalRequestStatus::Approved || self == ApprovalRequestStatus::Denied),
            r == (self != ApprovalRequestStatus::Pending),
    {
        match self {
            ApprovalRequestStatus::Pending => false,
            ApprovalRequestStatus::Approved => true,
            ApprovalRequestStatus::Denied => true,
        }
    }

    /// The name of the variant on the wire.
    pub open spec fn wire_name(self) -> Seq<char> {
        match self {
            ApprovalRequestStatus::Pending => "pending"@,
            ApprovalRequestStatus::Approved => "approved"@,
            ApprovalRequestStatus::Denied => "denied"@,
        }
    }

    /// The name of the variant on the wire.
    pub fn as_wire(&self) -> (r: &'static str)
        ensures
            r@ == self.wire_name(),
    {
        match self {
            ApprovalRequestStatus::Pending => "pending",
            ApprovalRequestStatus::Approved => "approved",
            ApprovalRequestStatus::Denied => "denied",
        }
    }

    /// The status with the given wire name. Any other text, however close, is
    /// refused with `None`: an unknown status is an error, never "pending".
    pub fn from_wire(s: &str) -> (r: Option<Self>)
        ensures
            match r {
                Some(v) => s@ == v.wire_name(),
                None => forall|v: Self| s@ != #[trigger] v.wire_name(),
            },
            forall|v: Self| s@ == #[trigger] v.wire_name() ==> r == Some(v),
    {
        let r = if str_equal(s, "pending") {
            Some(ApprovalRequestStatus::Pending)
        } else if str_equal(s, "approved") {
            Some(ApprovalRequestStatus::Approved)
        } else if str_equal(s, "denied") {
            Some(ApprovalRequestStatus::Denied)
        } else {
            assert forall|v: Self| s@ != #[trigger] v.wire_name() by {
                match v {
                    ApprovalRequestStatus::Pending => {},
                    ApprovalRequestStatus::Approved => {},
                    ApprovalRequestStatus::Denied => {},
                }
            }
            None
        };
        proof {
            assert forall|v: Self| s@ == #[trigger] v.wire_name() implies r == Some(v) by {
                if let Some(w) = r {
                    Self::lemma_wire_names_distinct(v, w);
                }
            }
        }
        r
    }

    /// Distinct statuses have distinct wire names.
    pub proof fn lemma_wire_names_distinct(a: Self, b: Self)
        ensures
            a.wire_name() == b.wire_name() ==> a == b,
    {
        reveal_strlit("pending");
        reveal_strlit("approved");
        reveal_strlit("denied");
        if a != b {
            assert(a.wire_name()[0] != b.wire_name()[0]);
        }
    }
}

/// Each status's wire name is its snake_case name.
pub proof fn lemma_status_wire_names()
    ensures
        ApprovalRequestStatus::Pending.wire_name() == "pending"@,
        ApprovalRequestStatus::Approved.wire_name() == "approved"@,
        ApprovalRequestStatus::Denied.wire_name() == "denied"@,
{
}

/// Caller-facing risk hint surfaced on the user's consent page.
#[derive(Debug, Clone, Copy, PartialEq, Eq, Structural)]
pub enum ApprovalRiskLevel {
    /// Low risk.
    Low,
    /// Medium risk (Granite's default).
    Medium,
    /// High risk.
    High,
}

impl Default for ApprovalRiskLevel {
    fn default() -> (r: Self)
        ensures
            r == ApprovalRiskLevel::Medium,
    {
        ApprovalRiskLevel::Medium
    }
}

impl ApprovalRiskLevel {
    /// The name of the variant on the wire.
    pub open spec fn wire_name(self) -> Seq<char> {
        match self {
            ApprovalRiskLevel::Low => "low"@,
            ApprovalRiskLevel::Medium => "medium"@,
            ApprovalRiskLevel::High => "high"@,
        }
    }

    /// The name of the variant on the wire.
    pub fn as_wire(&self) -> (r: &'static str)
        ensures
            r@ == self.wire_name(),
    {
        match self {
            ApprovalRiskLevel::Low => "low",
            ApprovalRiskLevel::Medium => "medium",
            ApprovalRiskLevel::High => "high",
        }
    }

    /// The risk level with the given wire name; `None` for any other text.
    pub fn from_wire(s: &str) -> (r: Option<Self>)
        ensures
            match r {
                Some(v) => s@ == v.wire_name(),
                None => forall|v: Self| s@ != #[trigger] v.wire_name(),
            },
            forall|v: Self| s@ == #[trigger] v.wire_name() ==> r == Some(v),
    {
        let r = if str_equal(s, "low") {
            Some(ApprovalRiskLevel::Low)
        } else if str_equal(s, "medium") {
            Some(ApprovalRiskLevel::Medium)
        } else if str_equal(s, "high") {
            Some(ApprovalRiskLevel::High)
        } else {
            assert forall|v: Self| s@ != #[trigger] v.wire_name() by {
                match v {
                    ApprovalRiskLevel::Low => {},
                    ApprovalRiskLevel::Medium => {},
                    ApprovalRiskLevel::High => {},
                }
            }
            None
        };
        proof {
            assert forall|v: Self| s@ == #[trigger] v.wire_name() implies r == Some(v) by {
                if let Some(w) = r {
                    Self::lemma_wire_names_distinct(v, w);
                }
            }
        }
        r
    }

    /// Distinct risk levels have distinct wire names.
    pub proof fn lemma_wire_names_distinct(a: Self, b: Self)
        ensures
            a.wire_name() == b.wire_name() ==> a == b,
    {
        reveal_strlit("low");
        reveal_strlit("medium");
        reveal_strlit("high");
        if a != b {
            assert(a.wire_name()[0] != b.wire_name()[0]);
        }
    }
}

/// Each risk level's wire name is its snake_case name.
pub proof fn lemma_risk_level_wire_names()
    ensures
        ApprovalRiskLevel::Low.wire_name() == "low"@,
        ApprovalRiskLevel::Medium.wire_name() == "medium"@,
        ApprovalRiskLevel::High.wire_name() == "high"@,
{
}

/// Standing-grant lifecycle state, as returned on grant records.
#[derive(Debug, Clone, Copy, PartialEq, Eq, Structural)]
pub enum ApprovalGrantStatus {
    /// The grant is live.
    Active,
    /// The grant was revoked.
    Revoked,
}

impl ApprovalGrantStatus {
    /// The name of the variant on the wire.
    pub open spec fn wire_name(self) -> Seq<char> {
        match self {
            ApprovalGrantStatus::Active => "active"@,
            ApprovalGrantStatus::Revoked => "revoked"@,
        }
    }

    /// The name of the variant on the wire.
    pub fn as_wire(&self) -> (r: &'static str)
        ensures
            r@ == self.wire_name(),
    {
        match self {
            ApprovalGrantStatus::Active => "active",
            ApprovalGrantStatus::Revoked => "revoked",
        }
    }

    /// The grant status with the given wire name; `None` for any other text.
    pub fn from_wire(s: &str) -> (r: Option<Self>)
        ensures
            match r {
                Some(v) => s@ == v.wire_name(),
                None => forall|v: Self| s@ != #[trigger] v.wire_name(),
            },
            forall|v: Self| s@ == #[trigger] v.wire_name() ==> r == Some(v),
    {
        let r = if str_equal(s, "active") {
            Some(ApprovalGrantStatus::Active)
        } else if str_equal(s, "revoked") {
            Some(ApprovalGrantStatus::Revoked)
        } else {
            assert forall|v: Self| s@ != #[trigger] v.wire_name() by {
                match v {
                    ApprovalGrantStatus::Active => {},
                    ApprovalGrantStatus::Revoked => {},
                }
            }
            None
        };
        proof {
            assert forall|v: Self| s@ == #[trigger] v.wire_name() implies r == Some(v) by {
                if let Some(w) = r {
                    Self::lemma_wire_names_distinct(v, w);
                }
            }
        }
        r
    }

    /// Distinct grant statuses have distinct wire names.
    pub proof fn lemma_wire_names_distinct(a: Self, b: Self)
        ensures
            a.wire_name() == b.wire_name() ==> a == b,
    {
        reveal_strlit("active");
        reveal_strlit("revoked");
        if a != b {
            assert(a.wire_name()[0] != b.wire_name()[0]);
        }
    }
}

/// Each grant status's wire name is its snake_case name.
pub proof fn lemma_grant_status_wire_names()
    ensures
        ApprovalGrantStatus::Active.wire_name() == "active"@,
        ApprovalGrantStatus::Revoked.wire_name() == "revoked"@,
{
}

// ---------------------------------------------------------------------------
// Trust environments
// ---------------------------------------------------------------------------

/// The trust environment an approval is minted in. Granite derives it from
/// the caller's keyset; a destructive action may only act on an approval
/// whose environment matches the caller's own.
#[derive(Debug, Clone, PartialEq, Eq)]
pub enum Environment {
    /// Production: the strictest reading, and what an untagged approval is.
    Prod,
    /// A test tenant.
    Test {
        /// The tenant the test environment belongs to.
        tenant: String,
    },
}

impl Default for Environment {
    fn default() -> (r: Self)
        ensures
            r == Environment::Prod,
    {
        Environment::Prod
    }
}

impl Environment {
    /// Whether two environments are the same environment.
    pub open spec fn same(self, other: Environment) -> bool {
        match (self, other) {
            (Environment::Prod, Environment::Prod) => true,
            (Environment::Test { tenant: a }, Environment::Test { tenant: b }) => a@ == b@,
            _ => false,
        }
    }

    /// The text naming an environment in error messages: `prod`, or `test:`
    /// followed by the tenant.
    pub open spec fn label_text(self) -> Seq<char> {
        match self {
            Environment::Prod => "prod"@,
            Environment::Test { tenant } => "test:"@ + tenant@,
        }
    }

    /// Whether `self` and `other` are the same environment.
    pub fn same_as(&self, other: &Environment) -> (r: bool)
        ensures
            r == self.same(*other),
    {
        match (self, other) {
            (Environment::Prod, Environment::Prod) => true,
            (Environment::Test { tenant: a }, Environment::Test { tenant: b }) => str_equal(
                a.as_str(),
                b.as_str(),
            ),
            _ => false,
        }
    }

    /// The text naming the environment in error messages.
    pub fn label(&self) -> (r: String)
        ensures
            r@ == self.label_text(),
    {
        match self {
            Environment::Prod => owned("prod"),
            Environment::Test { tenant } => {
                let mut s = owned("test:");
                s.append(tenant.as_str());
                s
            },
        }
    }
}

/// Isolation of trust environments: sameness is symmetric, production is
/// itself and never a test environment, and two test environments are the
/// same only for the same tenant. Errors name production `prod` and a test
/// environment `test:` followed by its tenant.
pub proof fn lemma_environment_isolation(a: Environment, b: Environment)
    ensures
        a.same(b) <==> b.same(a),
        a is Prod && b is Test ==> !a.same(b),
        a is Prod && b is Prod ==> a.same(b),
        a is Prod ==> a.label_text() == "prod"@,
        a matches Environment::Test { tenant: x } ==> a.label_text() == "test:"@ + x@,
        a matches Environment::Test { tenant: x } ==> (b matches Environment::Test { tenant: y }
            ==> (a.same(b) <==> x@ == y@)),
{
}

// ---------------------------------------------------------------------------
// Request and response bodies
// ---------------------------------------------------------------------------

/// Body for `POST /v1/approval-requests` (and the project-scoped variant).
///
/// `requester_app_id` is optional: an app-credentialled caller omits it
/// (Granite binds it from the attested app id), while an
/// internal-service-token caller supplies it.
#[derive(Debug, Clone)]
pub struct CreateApprovalRequest {
    pub requester_app_id: Option<String>,
    pub requester_agent_id: Option<String>,
    pub requester_chirp_sub: Option<String>,
    pub request_type: ApprovalRequestType,
    pub title: String,
    pub summary: String,
    pub risk_level: ApprovalRiskLevel,
    pub requested_action: String,
    pub requested_resource: String,
    pub requested_scopes: Vec<String>,
    pub proposed_limits: Option<serde_json::Value>,
    pub trace_id: Option<String>,
    pub callback_url: Option<String>,
    pub callback_secret: Option<String>,
}

impl Default for CreateApprovalRequest {
    fn default() -> (r: Self)
        ensures
            r.requester_app_id is None,
            r.requester_agent_id is None,
            r.requester_chirp_sub is None,
            r.request_type == ApprovalRequestType::OneTimeAction,
            r.title@ == Seq::<char>::empty(),
            r.summary@ == Seq::<char>::empty(),
            r.risk_level == ApprovalRiskLevel::Medium,
            r.requested_action@ == Seq::<char>::empty(),
            r.requested_resource@ == Seq::<char>::empty(),
            r.requested_scopes@ == Seq::<String>::empty(),
            r.proposed_limits is None,
            r.trace_id is None,
            r.callback_url is None,
            r.callback_secret is None,
    {
        CreateApprovalRequest {
            requester_app_id: None,
            requester_agent_id: None,
            requester_chirp_sub: None,
            request_type: ApprovalRequestType::OneTimeAction,
            title: String::new(),
            summary: String::new(),
            risk_level: ApprovalRiskLevel::Medium,
            requested_action: String::new(),
            requested_resource: String::new(),
            requested_scopes: Vec::new(),
            proposed_limits: None,
            trace_id: None,
            callback_url: None,
            callback_secret: None,
        }
    }
}

/// The approval-request record Granite returns from create and status reads.
#[derive(Debug, Clone, PartialEq, Eq)]
pub struct ApprovalRequest {
    pub id: Uuid,
    pub owner_uid: String,
    pub requester_app_id: String,
    pub requester_agent_id: Option<String>,
    pub requester_chirp_sub: Option<String>,
    pub request_type: ApprovalRequestType,
    pub title: String,
    pub summary: String,
    pub risk_level: ApprovalRiskLevel,
    pub requested_action: String,
    pub requested_resource: String,
    pub requested_scopes: Vec<String>,
    pub status: ApprovalRequestStatus,
    pub grant_id: Option<Uuid>,
    pub trace_id: Option<String>,
    /// Why the owner decided as they did, when they said (typically on denial).
    pub decision_reason: Option<String>,
    /// The trust environment the approval was minted in (`Prod` when the
    /// record does not say).
    pub environment: Environment,
}

impl ApprovalRequest {
    /// Refuses to let this approval authorize an action in any environment
    /// but its own: `Ok` exactly when the approval's environment is
    /// `expected`, else `EnvironmentMismatch` naming both.
    pub fn assert_environment(&self, expected: &Environment) -> (r: Result<(), GraniteError>)
        ensures
            r is Ok <==> self.environment.same(*expected),
            r matches Err(e) ==> e matches GraniteError::EnvironmentMismatch { expected: x, found: y }
                && x@ == expected.label_text() && y@ == self.environment.label_text(),
    {
        if self.environment.same_as(expected) {
            Ok(())
        } else {
            Err(
                GraniteError::EnvironmentMismatch {
                    expected: expected.label(),
                    found: self.environment.label(),
                },
            )
        }
    }
}

/// A standing grant record, as embedded in a verification response.
#[derive(Debug, Clone, PartialEq, Eq)]
pub struct ApprovalGrant {
    pub id: Uuid,
    pub owner_uid: String,
    pub request_id: Uuid,
    pub subject_app_id: String,
    pub subject_agent_id: Option<String>,
    pub subject_chirp_sub: Option<String>,
    pub service_id: String,
    pub resource: String,
    pub scopes: Vec<String>,
    pub limits: Option<serde_json::Value>,
    pub status: ApprovalGrantStatus,
}

/// Body for `POST /v1/grants/verify` (and the project-scoped variant).
///
/// At least one of `request_id` / `grant_id` names the grant; `resource` and
/// `scopes` narrow what is being checked.
#[derive(Debug, Clone)]
pub struct VerifyGrantRequest {
    pub request_id: Option<Uuid>,
    pub grant_id: Option<Uuid>,
    pub resource: Option<String>,
    pub scopes: Vec<String>,
    pub subject_agent_id: Option<String>,
    pub subject_chirp_sub: Option<String>,
}

impl Default for VerifyGrantRequest {
    fn default() -> (r: Self)
        ensures
            r.request_id is None,
            r.grant_id is None,
            r.resource is None,
            r.scopes@ == Seq::<String>::empty(),
            r.subject_agent_id is None,
            r.subject_chirp_sub is None,
    {
        VerifyGrantRequest {
            request_id: None,
            grant_id: None,
            resource: None,
            scopes: Vec::new(),
            subject_agent_id: None,
            subject_chirp_sub: None,
        }
    }
}

impl VerifyGrantRequest {
    /// A verification keyed on a grant id, the common case.
    pub fn for_grant(grant_id: Uuid) -> (r: Self)
        ensures
            r.grant_id == Some(grant_id),
            r.request_id is None,
            r.resource is None,
            r.scopes@ == Seq::<String>::empty(),
            r.subject_agent_id is None,
            r.subject_chirp_sub is None,
    {
        VerifyGrantRequest {
            request_id: None,
            grant_id: Some(grant_id),
            resource: None,
            scopes: Vec::new(),
            subject_agent_id: None,
            subject_chirp_sub: None,
        }
    }

    /// A verification keyed on an approval-request id.
    pub fn for_request(request_id: Uuid) -> (r: Self)
        ensures
            r.request_id == Some(request_id),
            r.grant_id is None,
            r.resource is None,
            r.scopes@ == Seq::<String>::empty(),
            r.subject_agent_id is None,
            r.subject_chirp_sub is None,
    {
        VerifyGrantRequest {
            request_id: Some(request_id),
            grant_id: None,
            resource: None,
            scopes: Vec::new(),
            subject_agent_id: None,
            subject_chirp_sub: None,
        }
    }

    /// Narrows the check to a specific resource ref.
    pub fn with_resource(self, resource: &str) -> (r: Self)
        ensures
            r.resource matches Some(x) && x@ == resource@,
            r.request_id == self.request_id,
            r.grant_id == self.grant_id,
            r.scopes == self.scopes,
            r.subject_agent_id == self.subject_agent_id,
            r.subject_chirp_sub == self.subject_chirp_sub,
    {
        let mut r = self;
        r.resource = Some(owned(resource));
        r
    }

    /// Narrows the check to specific scope actions, replacing any set before.
    pub fn with_scopes(self, scopes: Vec<String>) -> (r: Self)
        ensures
            r.scopes == scopes,
            r.request_id == self.request_id,
            r.grant_id == self.grant_id,
            r.resource == self.resource,
            r.subject_agent_id == self.subject_agent_id,
            r.subject_chirp_sub == self.subject_chirp_sub,
    {
        let mut r = self;
        r.scopes = scopes;
        r
    }

    /// Requires the grant to be bound to this machine subject.
    pub fn with_subject_chirp_sub(self, sub: &str) -> (r: Self)
        ensures
            r.subject_chirp_sub matches Some(x) && x@ == sub@,
            r.request_id == self.request_id,
            r.grant_id == self.grant_id,
            r.resource == self.resource,
            r.scopes == self.scopes,
            r.subject_agent_id == self.subject_agent_id,
    {
        let mut r = self;
        r.subject_chirp_sub = Some(owned(sub));
        r
    }
}

/// Response from `POST /v1/grants/verify`: `approved` is the load-bearing
/// answer, and `reason` explains a `false`.
#[derive(Debug, Clone, PartialEq, Eq)]
pub struct GrantVerification {
    pub approved: bool,
    pub request: Option<ApprovalRequest>,
    pub grant: Option<ApprovalGrant>,
    pub reason: Option<String>,
}

} // verus!
