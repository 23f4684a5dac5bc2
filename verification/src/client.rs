//! The client's own logic: how it authenticates, which requests it sends to
//! which endpoints, how it reads a response's status, and how a caller's
//! request -> decide -> react loop moves on.
//!
//! Sending the requests is left to the transport that drives this module;
//! everything the client decides is here.

use vstd::prelude::*;

use crate::error::GraniteError;
use crate::headers::{can_write_text, can_write_value, AGENT_ID, GRANITE_APP_ID, USER_CAN_WRITE, USER_ID};
use crate::model::{hyphenated_text, uuid_text, ApprovalRequest, ApprovalRequestStatus, Uuid};
use crate::text::{lemma_trim_end_char, lemma_trim_end_char_idempotent, owned, trim_end, trim_end_char};

verus! {

/// How the client authenticates to Granite.
///
/// The two paths Granite supports map to two variants, so a caller cannot
/// half-configure one.
#[derive(Debug)]
pub enum Auth {
    /// The master internal-service token (operator). The caller supplies
    /// `requester_app_id` in the body of created requests.
    InternalServiceToken(String),
    /// A registered app credential: the bearer secret plus the attested app
    /// id sent as `x-granite-app-id`.
    AppCredential {
        /// The app secret.
        secret: String,
        /// The registered app id.
        app_id: String,
    },
}

impl Clone for Auth {
    fn clone(&self) -> (r: Self)
        ensures
            r == *self,
    {
        match self {
            Auth::InternalServiceToken(token) => Auth::InternalServiceToken(token.clone()),
            Auth::AppCredential { secret, app_id } => Auth::AppCredential {
                secret: secret.clone(),
                app_id: app_id.clone(),
            },
        }
    }
}

/// The user a request acts on behalf of, their write flag and an optional
/// acting agent id. Passed per call rather than baked into the client.
#[derive(Debug, Clone)]
pub struct ActingUser {
    /// The owner uid (`x-user-id`).
    pub uid: String,
    /// Whether the user may write (`x-user-can-write`).
    pub can_write: bool,
    /// Optional agent id (`x-agent-id`).
    pub agent_id: Option<String>,
}

impl ActingUser {
    /// A read-only acting user with no agent id: the right default for
    /// verification calls.
    pub fn read_only(uid: &str) -> (r: Self)
        ensures
            r.uid@ == uid@,
            !r.can_write,
            r.agent_id is None,
    {
        ActingUser { uid: owned(uid), can_write: false, agent_id: None }
    }

    /// A writing acting user with no agent id: required for create, approve,
    /// deny and revoke.
    pub fn writer(uid: &str) -> (r: Self)
        ensures
            r.uid@ == uid@,
            r.can_write,
            r.agent_id is None,
    {
        ActingUser { uid: owned(uid), can_write: true, agent_id: None }
    }

    /// Attaches an agent id, replacing any given before.
    pub fn with_agent_id(self, agent_id: &str) -> (r: Self)
        ensures
            r.uid == self.uid,
            r.can_write == self.can_write,
            r.agent_id matches Some(a) && a@ == agent_id@,
    {
        let mut r = self;
        r.agent_id = Some(owned(agent_id));
        r
    }
}

/// An HTTP method the client uses.
#[derive(Debug, Clone, Copy, PartialEq, Eq, Structural)]
pub enum Method {
    Get,
    Post,
}

/// A request header: its name and value.
#[derive(Debug, Clone)]
pub struct Header {
    pub name: String,
    pub value: String,
}

/// Everything the client decides about an outbound call: method, absolute
/// URL, bearer token and identity headers. The JSON body, where there is
/// one, is the request value the caller passed.
#[derive(Debug, Clone)]
pub struct OutboundRequest {
    pub method: Method,
    pub url: String,
    pub bearer_token: String,
    pub headers: Vec<Header>,
}

/// The bearer token a credential presents.
pub open spec fn bearer_of(auth: Auth) -> Seq<char> {
    match auth {
        Auth::InternalServiceToken(token) => token@,
        Auth::AppCredential { secret, .. } => secret@,
    }
}

/// The identity headers of a call, in order: the acting user, the write
/// flag, the attested app id for an app credential, and the agent id when
/// there is one.
pub open spec fn identity_headers(auth: Auth, user: ActingUser) -> Seq<(Seq<char>, Seq<char>)> {
    let base = seq![(USER_ID@, user.uid@), (USER_CAN_WRITE@, can_write_text(user.can_write))];
    let with_app = match auth {
        Auth::AppCredential { app_id, .. } => base.push((GRANITE_APP_ID@, app_id@)),
        Auth::InternalServiceToken(_) => base,
    };
    match user.agent_id {
        Some(agent) => with_app.push((AGENT_ID@, agent@)),
        None => with_app,
    }
}

/// The header policy, whatever the credential: the acting user's id comes
/// first, the write flag (`"true"` / `"false"`) second; the attested app id
/// follows exactly for an app credential; the agent id comes last exactly
/// when the acting user has one; and nothing else is sent.
pub proof fn lemma_header_policy(auth: Auth, user: ActingUser)
    ensures
        ({
            let h = identity_headers(auth, user);
            let app = if auth is AppCredential { 1int } else { 0int };
            let agent = if user.agent_id is Some { 1int } else { 0int };
            &&& h.len() == 2 + app + agent
            &&& h[0] == ("x-user-id"@, user.uid@)
            &&& h[1] == ("x-user-can-write"@, if user.can_write { "true"@ } else { "false"@ })
            &&& (auth matches Auth::AppCredential { app_id, .. } ==> h[2] == ("x-granite-app-id"@, app_id@))
            &&& (user.agent_id matches Some(a) ==> h.last() == ("x-agent-id"@, a@))
        }),
{
}

/// The name and value of each header.
pub open spec fn header_pairs(headers: Seq<Header>) -> Seq<(Seq<char>, Seq<char>)> {
    headers.map_values(|h: Header| (h.name@, h.value@))
}

/// The path that files approval requests.
pub open spec fn approval_requests_path() -> Seq<char> {
    "/v1/approval-requests"@
}

/// The path of one approval request.
pub open spec fn approval_request_path(id: Uuid) -> Seq<char> {
    "/v1/approval-requests/"@ + hyphenated_text(id.0)
}

/// The path that verifies grants.
pub open spec fn verify_grant_path() -> Seq<char> {
    "/v1/grants/verify"@
}

/// The path that verifies grants within a project.
pub open spec fn project_verify_grant_path(project_id: Uuid) -> Seq<char> {
    "/v1/projects/"@ + hyphenated_text(project_id.0) + "/grants/verify"@
}

/// The path that revokes a grant.
pub open spec fn revoke_grant_path(grant_id: Uuid) -> Seq<char> {
    "/v1/grants/"@ + hyphenated_text(grant_id.0) + "/revoke"@
}

/// The endpoint paths: each fixed path, and each record path with the
/// record's canonical UUID text in its place.
pub proof fn lemma_endpoint_paths(id: Uuid)
    ensures
        approval_requests_path() == "/v1/approval-requests"@,
        verify_grant_path() == "/v1/grants/verify"@,
        approval_request_path(id) == "/v1/approval-requests/"@ + hyphenated_text(id.0),
        project_verify_grant_path(id) == "/v1/projects/"@ + hyphenated_text(id.0) + "/grants/verify"@,
        revoke_grant_path(id) == "/v1/grants/"@ + hyphenated_text(id.0) + "/revoke"@,
{
}

/// A client for the Granite approval core: a base URL (kept without a
/// trailing `/`) and a credential. The acting user and write flag are passed
/// per call, since one service acts on behalf of many users.
#[derive(Debug)]
pub struct GraniteClient {
    base_url: String,
    auth: Auth,
}

impl Clone for GraniteClient {
    fn clone(&self) -> (r: Self)
        ensures
            r.base() == self.base(),
            r.credential() == self.credential(),
    {
        proof {
            use_type_invariant(self);
        }
        GraniteClient { base_url: self.base_url.clone(), auth: self.auth.clone() }
    }
}

impl GraniteClient {
    #[verifier::type_invariant]
    spec fn base_has_no_trailing_slash(self) -> bool {
        self.base_url@.len() > 0 ==> self.base_url@.last() != '/'
    }

    /// The base URL the client calls, without a trailing `/`.
    pub closed spec fn base(self) -> Seq<char> {
        self.base_url@
    }

    /// The credential the client presents.
    pub closed spec fn credential(self) -> Auth {
        self.auth
    }

    /// A client for `base_url`, which may include or omit trailing `/`s.
    pub fn new(base_url: &str, auth: Auth) -> (r: Self)
        ensures
            r.base() == trim_end_char(base_url@, '/'),
            r.credential() == auth,
    {
        proof {
            lemma_trim_end_char(base_url@, '/');
        }
        GraniteClient { base_url: trim_end(base_url, '/'), auth }
    }

    /// The base URL the client calls.
    pub fn base_url(&self) -> (r: &str)
        ensures
            r@ == self.base(),
            r@.len() > 0 ==> r@.last() != '/',
    {
        proof {
            use_type_invariant(self);
        }
        self.base_url.as_str()
    }

    /// The credential the client presents.
    pub fn auth(&self) -> (r: &Auth)
        ensures
            *r == self.credential(),
    {
        &self.auth
    }

    /// The absolute URL of an endpoint path.
    pub fn url(&self, path: &str) -> (r: String)
        ensures
            r@ == self.base() + path@,
    {
        let mut r = owned(self.base_url.as_str());
        r.append(path);
        r
    }

    /// The call of `method` on `path` as `acting_user`, with the bearer token
    /// and identity headers this client's credential calls for. This is the
    /// single place the header policy is applied to outbound calls.
    pub fn authed(&self, method: Method, path: &str, acting_user: &ActingUser) -> (r: OutboundRequest)
        ensures
            r.method == method,
            r.url@ == self.base() + path@,
            r.bearer_token@ == bearer_of(self.credential()),
            header_pairs(r.headers@) == identity_headers(self.credential(), *acting_user),
    {
        let (token, app_id) = match &self.auth {
            Auth::InternalServiceToken(token) => (token, None),
            Auth::AppCredential { secret, app_id } => (secret, Some(app_id)),
        };
        let mut headers: Vec<Header> = Vec::new();
        headers.push(Header { name: owned(USER_ID), value: acting_user.uid.clone() });
        headers.push(
            Header {
                name: owned(USER_CAN_WRITE),
                value: owned(can_write_value(acting_user.can_write)),
            },
        );
        if let Some(app_id) = app_id {
            headers.push(Header { name: owned(GRANITE_APP_ID), value: app_id.clone() });
        }
        if let Some(agent_id) = &acting_user.agent_id {
            headers.push(Header { name: owned(AGENT_ID), value: agent_id.clone() });
        }
        let r = OutboundRequest {
            method,
            url: self.url(path),
            bearer_token: token.clone(),
            headers,
        };
        assert(header_pairs(r.headers@) =~= identity_headers(self.credential(), *acting_user));
        r
    }

    /// `POST /v1/approval-requests`: file a new approval request (the body is
    /// the `CreateApprovalRequest`).
    pub fn prepare_create_approval_request(&self, acting_user: &ActingUser) -> (r: OutboundRequest)
        ensures
            r.method == Method::Post,
            r.url@ == self.base() + approval_requests_path(),
            r.bearer_token@ == bearer_of(self.credential()),
            header_pairs(r.headers@) == identity_headers(self.credential(), *acting_user),
    {
        self.authed(Method::Post, "/v1/approval-requests", acting_user)
    }

    /// `GET /v1/approval-requests/{id}`: read a request's current status.
    pub fn prepare_get_approval_request(&self, acting_user: &ActingUser, request_id: Uuid) -> (r: OutboundRequest)
        ensures
            r.method == Method::Get,
            r.url@ == self.base() + approval_request_path(request_id),
            r.bearer_token@ == bearer_of(self.credential()),
            header_pairs(r.headers@) == identity_headers(self.credential(), *acting_user),
    {
        let mut path = owned("/v1/approval-requests/");
        path.append(uuid_text(request_id).as_str());
        self.authed(Method::Get, path.as_str(), acting_user)
    }

    /// `POST /v1/grants/verify`: verify a grant is active and in scope (the
    /// body is the `VerifyGrantRequest`).
    pub fn prepare_verify_grant(&self, acting_user: &ActingUser) -> (r: OutboundRequest)
        ensures
            r.method == Method::Post,
            r.url@ == self.base() + verify_grant_path(),
            r.bearer_token@ == bearer_of(self.credential()),
            header_pairs(r.headers@) == identity_headers(self.credential(), *acting_user),
    {
        self.authed(Method::Post, "/v1/grants/verify", acting_user)
    }

    /// `POST /v1/projects/{project_id}/grants/verify`: project-scoped verify
    /// (the body is the `VerifyGrantRequest`).
    pub fn prepare_verify_project_grant(&self, acting_user: &ActingUser, project_id: Uuid) -> (r: OutboundRequest)
        ensures
            r.method == Method::Post,
            r.url@ == self.base() + project_verify_grant_path(project_id),
            r.bearer_token@ == bearer_of(self.credential()),
            header_pairs(r.headers@) == identity_headers(self.credential(), *acting_user),
    {
        let mut path = owned("/v1/projects/");
        path.append(uuid_text(project_id).as_str());
        path.append("/grants/verify");
        self.authed(Method::Post, path.as_str(), acting_user)
    }

    /// `POST /v1/grants/{id}/revoke`: revoke a standing grant.
    pub fn prepare_revoke_grant(&self, acting_user: &ActingUser, grant_id: Uuid) -> (r: OutboundRequest)
        ensures
            r.method == Method::Post,
            r.url@ == self.base() + revoke_grant_path(grant_id),
            r.bearer_token@ == bearer_of(self.credential()),
            header_pairs(r.headers@) == identity_headers(self.credential(), *acting_user),
    {
        let mut path = owned("/v1/grants/");
        path.append(uuid_text(grant_id).as_str());
        path.append("/revoke");
        self.authed(Method::Post, path.as_str(), acting_user)
    }
}

/// The base URL may include or omit a trailing `/`: a client built from
/// `base` followed by `/` calls the same base as one built from `base`, and
/// building a client from a client's own base changes nothing.
pub proof fn lemma_trailing_slash_ignored(base: Seq<char>)
    ensures
        trim_end_char(base.push('/'), '/') == trim_end_char(base, '/'),
        trim_end_char(trim_end_char(base, '/'), '/') == trim_end_char(base, '/'),
{
    assert(base.push('/').drop_last() =~= base);
    lemma_trim_end_char_idempotent(base, '/');
}

/// Whether an HTTP status code is a success (`2xx`).
pub open spec fn is_success(status: u16) -> bool {
    200 <= status < 300
}

/// Reads the status of a response: a `2xx` hands the body on to be decoded;
/// any other status is a `Status` error carrying the code and the body.
pub fn check_status(status: u16, body: String) -> (r: Result<String, GraniteError>)
    ensures
        is_success(status) ==> r == Ok::<String, GraniteError>(body),
        !is_success(status) ==> (r matches Err(GraniteError::Status { status: s, body: b })
            && s == status && b == body),
        200 <= status <= 299 ==> r == Ok::<String, GraniteError>(body),
        (status < 200 || status > 299) ==> (r matches Err(GraniteError::Status { status: s, body: b })
            && s == status && b == body),
{
    if 200 <= status && status < 300 {
        Ok(body)
    } else {
        Err(GraniteError::Status { status, body })
    }
}

/// Every `2xx` status, and only those, is a success: `200..=299`.
pub proof fn lemma_success_is_2xx(status: u16)
    ensures
        is_success(status) <==> (200 <= status && status <= 299),
{
}

/// The terminal outcome of an approval request. Carries the full request so
/// a caller can read `grant_id` or the decision reason.
#[derive(Debug, Clone)]
pub enum Decision {
    /// The owner approved the request.
    Approved(ApprovalRequest),
    /// The owner denied it.
    Denied(ApprovalRequest),
}

impl Decision {
    /// The request record a decision carries.
    pub open spec fn record(self) -> ApprovalRequest {
        match self {
            Decision::Approved(request) => request,
            Decision::Denied(request) => request,
        }
    }

    /// The underlying request record (approved or denied).
    pub fn request(&self) -> (r: &ApprovalRequest)
        ensures
            *r == self.record(),
    {
        match self {
            Decision::Approved(request) => request,
            Decision::Denied(request) => request,
        }
    }

    /// Whether the request was approved.
    pub fn is_approved(&self) -> (r: bool)
        ensures
            r == (self is Approved),
    {
        match self {
            Decision::Approved(_) => true,
            Decision::Denied(_) => false,
        }
    }

    /// The decision reason, if one was recorded (typically on denial).
    pub fn reason(&self) -> (r: Option<&str>)
        ensures
            match r {
                Some(s) => self.record().decision_reason matches Some(x) && s@ == x@,
                None => self.record().decision_reason is None,
            },
    {
        match &self.request().decision_reason {
            Some(reason) => Some(reason.as_str()),
            None => None,
        }
    }
}

/// The terminal decision a request record shows, or `None` while pending.
pub open spec fn decision_of(request: ApprovalRequest) -> Option<Decision> {
    match request.status {
        ApprovalRequestStatus::Pending => None,
        ApprovalRequestStatus::Approved => Some(Decision::Approved(request)),
        ApprovalRequestStatus::Denied => Some(Decision::Denied(request)),
    }
}

/// Maps a request to its terminal decision, or `None` while it is pending.
/// The network-free core of polling and awaiting.
pub fn decision_from_request(request: ApprovalRequest) -> (r: Option<Decision>)
    ensures
        r == decision_of(request),
{
    match request.status {
        ApprovalRequestStatus::Pending => None,
        ApprovalRequestStatus::Approved => Some(Decision::Approved(request)),
        ApprovalRequestStatus::Denied => Some(Decision::Denied(request)),
    }
}

/// A request yields a decision exactly when its status is terminal; the
/// decision carries the request unchanged, and is an approval exactly when
/// the status is `Approved`.
pub proof fn lemma_decision_iff_terminal(request: ApprovalRequest)
    ensures
        decision_of(request) is Some <==> request.status != ApprovalRequestStatus::Pending,
        decision_of(request) matches Some(d) ==> (d.record() == request
            && (d is Approved <==> request.status == ApprovalRequestStatus::Approved)),
{
}

/// A length of time, in nanoseconds.
#[derive(Debug, Clone, Copy, PartialEq, Eq, Structural)]
pub struct Span {
    /// The length in nanoseconds.
    pub nanos: u128,
}

impl Span {
    /// A span of whole seconds.
    pub fn from_secs(secs: u64) -> (r: Span)
        ensures
            r.nanos == secs * 1_000_000_000,
    {
        Span { nanos: secs as u128 * 1_000_000_000 }
    }

    /// Whether `self` is at least as long as `limit`.
    pub fn reaches(&self, limit: &Span) -> (r: bool)
        ensures
            r == (self.nanos >= limit.nanos),
    {
        self.nanos >= limit.nanos
    }
}

/// Pacing for awaiting a decision: the delay between status polls and an
/// optional overall deadline (`None` waits indefinitely).
#[derive(Debug, Clone, Copy, PartialEq, Eq, Structural)]
pub struct AwaitConfig {
    /// Delay between status polls.
    pub interval: Span,
    /// Optional overall deadline; `None` waits indefinitely.
    pub timeout: Option<Span>,
}

impl Default for AwaitConfig {
    /// Polls every three seconds with no overall deadline.
    fn default() -> (r: Self)
        ensures
            r.interval.nanos == 3_000_000_000,
            r.timeout is None,
    {
        AwaitConfig { interval: Span::from_secs(3), timeout: None }
    }
}

/// What an awaiting caller does after a poll.
#[derive(Debug)]
pub enum AwaitStep {
    /// Stop: with the decision, or with the error that ends the wait.
    Finished(Result<Decision, GraniteError>),
    /// Sleep this long, then poll again.
    Sleep(Span),
}

/// The step after a poll that returned `polled`, where `deadline_passed`
/// says whether the time spent so far has reached the configured timeout.
pub open spec fn await_outcome(polled: Option<Decision>, deadline_passed: bool, config: AwaitConfig) -> AwaitStep {
    match polled {
        Some(decision) => AwaitStep::Finished(Ok(decision)),
        None => match config.timeout {
            Some(timeout) => if deadline_passed {
                AwaitStep::Finished(Err(GraniteError::Timeout(timeout)))
            } else {
                AwaitStep::Sleep(config.interval)
            },
            None => AwaitStep::Sleep(config.interval),
        },
    }
}

/// Whether `elapsed` has reached the configured deadline (never, without one).
pub open spec fn deadline_reached(elapsed: Span, config: AwaitConfig) -> bool {
    match config.timeout {
        Some(timeout) => elapsed.nanos >= timeout.nanos,
        None => false,
    }
}

/// The step of the await loop after a poll: a decision ends the wait; while
/// pending, a passed deadline ends it with `Timeout` (the request itself
/// stays pending and can be awaited again); otherwise the caller sleeps for
/// the configured interval.
pub fn await_step(polled: Option<Decision>, deadline_passed: bool, config: &AwaitConfig) -> (r: AwaitStep)
    ensures
        r == await_outcome(polled, deadline_passed, *config),
        polled matches Some(d) ==> r == AwaitStep::Finished(Ok::<Decision, GraniteError>(d)),
{
    match polled {
        Some(decision) => AwaitStep::Finished(Ok(decision)),
        None => match config.timeout {
            Some(timeout) => if deadline_passed {
                AwaitStep::Finished(Err(GraniteError::Timeout(timeout)))
            } else {
                AwaitStep::Sleep(config.interval)
            },
            None => AwaitStep::Sleep(config.interval),
        },
    }
}

/// The step after a poll that answered `polled`, made `elapsed` after the
/// wait began: a failed poll ends the wait with its error; otherwise the
/// step is [`await_outcome`] with the deadline passed once `elapsed` is at
/// least the timeout.
pub open spec fn poll_outcome(
    polled: Result<Option<Decision>, GraniteError>,
    elapsed: Span,
    config: AwaitConfig,
) -> AwaitStep {
    match polled {
        Err(e) => AwaitStep::Finished(Err(e)),
        Ok(p) => await_outcome(p, deadline_reached(elapsed, config), config),
    }
}

/// The step of the await loop after a poll made `elapsed` after the wait
/// began: a failed poll ends the wait with that same error; a decision ends
/// it; while pending, the deadline has passed once `elapsed` is at least the
/// timeout, so a zero timeout ends the wait after the first pending poll.
pub fn next_await_step(
    polled: Result<Option<Decision>, GraniteError>,
    elapsed: Span,
    config: &AwaitConfig,
) -> (r: AwaitStep)
    ensures
        r == poll_outcome(polled, elapsed, *config),
        polled matches Ok(Some(d)) ==> r == AwaitStep::Finished(Ok::<Decision, GraniteError>(d)),
        polled matches Err(e) ==> r == AwaitStep::Finished(Err::<Decision, GraniteError>(e)),
{
    match polled {
        Err(e) => AwaitStep::Finished(Err(e)),
        Ok(p) => {
            let deadline_passed = match &config.timeout {
                Some(timeout) => elapsed.reaches(timeout),
                None => false,
            };
            await_step(p, deadline_passed, config)
        },
    }
}

/// A polled decision always ends the wait with that same decision, approved
/// or denied, whatever the time elapsed and the pacing.
pub proof fn lemma_decision_ends_the_wait(d: Decision, elapsed: Span, config: AwaitConfig, deadline_passed: bool)
    ensures
        poll_outcome(Ok(Some(d)), elapsed, config) == AwaitStep::Finished(Ok::<Decision, GraniteError>(d)),
        await_outcome(Some(d), deadline_passed, config) == AwaitStep::Finished(Ok::<Decision, GraniteError>(d)),
{
}

/// After a pending poll the wait times out exactly when a timeout is set and
/// the time elapsed has reached it, and it never times out without a
/// timeout; a failed poll always ends the wait with its own error.
pub proof fn lemma_timeout_only_after_deadline(elapsed: Span, config: AwaitConfig, t: Span)
    ensures
        (poll_outcome(Ok(None), elapsed, config) == AwaitStep::Finished(
            Err(GraniteError::Timeout(t)),
        )) <==> (config.timeout == Some(t) && elapsed.nanos >= t.nanos),
        config.timeout is None ==> poll_outcome(Ok(None), elapsed, config) == AwaitStep::Sleep(
            config.interval,
        ),
        (config.timeout matches Some(limit) && elapsed.nanos < limit.nanos) ==> poll_outcome(
            Ok(None),
            elapsed,
            config,
        ) == AwaitStep::Sleep(config.interval),
        forall|e: GraniteError| #[trigger] poll_outcome(Err(e), elapsed, config) == AwaitStep::Finished(Err(e)),
{
}

} // verus!
