//! The destructive-intent taxonomy as a type, not a string.
//!
//! [`PurgeKind`] keeps the row id inside the row variant, so a table purge
//! cannot carry one and a row purge cannot omit one. [`DestructiveIntent`]
//! wraps it with the context Granite needs to render a consent page, and
//! [`DestructiveIntent::to_approval_request`] is the single mapping from an
//! intent to a request body.

use vstd::prelude::*;

use crate::model::{ApprovalRequestType, ApprovalRiskLevel, CreateApprovalRequest};
use crate::text::{
    clone_opt, int_text, int_value, is_digit, lemma_int_text_value, lemma_int_text_injective, lemma_int_text_shape, lemma_split_at_last,
    opt_view, owned, push_int_text,
};

verus! {

/// What is being permanently removed. The payload lives in the variant.
#[derive(Debug, Clone, PartialEq, Eq, Structural)]
pub enum PurgeKind {
    /// A single row, identified by its row id.
    Row { rid: i64 },
    /// An entire table.
    Table,
}

impl PurgeKind {
    /// The Granite `requested_action` verb for a purge of this kind.
    pub open spec fn action_name(self) -> Seq<char> {
        match self {
            PurgeKind::Row { .. } => "purge_row"@,
            PurgeKind::Table => "drop_table"@,
        }
    }

    /// The Granite `requested_action` verb for this purge.
    pub fn action(&self) -> (r: &'static str)
        ensures
            r@ == self.action_name(),
    {
        match self {
            PurgeKind::Row { .. } => "purge_row",
            PurgeKind::Table => "drop_table",
        }
    }
}

/// The summary used when an intent gives no reason.
pub open spec fn default_summary() -> Seq<char> {
    "Permanent removal requested by an agent."@
}

/// A destructive operation an agent wants a human to approve before it runs.
///
/// `target` is the logical object the purge applies to (e.g. a table name);
/// `resource_prefix` namespaces the requested resource so two products' refs
/// to a table of the same name never collide.
#[derive(Debug, Clone, PartialEq, Eq)]
pub struct DestructiveIntent {
    /// Resource namespace for the requesting product (e.g. `"amber"`).
    pub resource_prefix: String,
    /// The object being purged (e.g. a table name).
    pub target: String,
    /// The shape of the purge, carrying its own payload.
    pub kind: PurgeKind,
    /// Optional human-readable reason shown on the consent page.
    pub reason: Option<String>,
    /// Optional id of the agent that requested the purge.
    pub agent_id: Option<String>,
}

/// The requested-resource ref of a purge: `prefix:row:target#rid` for a row,
/// `prefix:table:target` for a table.
pub open spec fn resource_text(prefix: Seq<char>, target: Seq<char>, kind: PurgeKind) -> Seq<char> {
    match kind {
        PurgeKind::Row { rid } => prefix + ":row:"@ + target + "#"@ + int_text(rid as int),
        PurgeKind::Table => prefix + ":table:"@ + target,
    }
}

/// The consent-page title of a purge.
pub open spec fn title_text(target: Seq<char>, kind: PurgeKind) -> Seq<char> {
    match kind {
        PurgeKind::Row { rid } => "Permanently delete "@ + target + "#"@ + int_text(rid as int),
        PurgeKind::Table => "Permanently drop table "@ + target,
    }
}

impl DestructiveIntent {
    /// The requested-resource ref of this intent.
    pub open spec fn resource_spec(self) -> Seq<char> {
        resource_text(self.resource_prefix@, self.target@, self.kind)
    }

    /// The consent-page title of this intent.
    pub open spec fn title_spec(self) -> Seq<char> {
        title_text(self.target@, self.kind)
    }

    /// A row-purge intent, with no reason and no agent id.
    pub fn row(resource_prefix: &str, target: &str, rid: i64) -> (r: Self)
        ensures
            r.resource_prefix@ == resource_prefix@,
            r.target@ == target@,
            r.kind == (PurgeKind::Row { rid }),
            r.reason is None,
            r.agent_id is None,
    {
        DestructiveIntent {
            resource_prefix: owned(resource_prefix),
            target: owned(target),
            kind: PurgeKind::Row { rid },
            reason: None,
            agent_id: None,
        }
    }

    /// A table-drop intent, with no reason and no agent id.
    pub fn table(resource_prefix: &str, target: &str) -> (r: Self)
        ensures
            r.resource_prefix@ == resource_prefix@,
            r.target@ == target@,
            r.kind == PurgeKind::Table,
            r.reason is None,
            r.agent_id is None,
    {
        DestructiveIntent {
            resource_prefix: owned(resource_prefix),
            target: owned(target),
            kind: PurgeKind::Table,
            reason: None,
            agent_id: None,
        }
    }

    /// Attaches a human-readable reason, replacing any given before.
    pub fn with_reason(self, reason: &str) -> (r: Self)
        ensures
            r.reason matches Some(x) && x@ == reason@,
            r.resource_prefix == self.resource_prefix,
            r.target == self.target,
            r.kind == self.kind,
            r.agent_id == self.agent_id,
    {
        let mut r = self;
        r.reason = Some(owned(reason));
        r
    }

    /// Attaches the requesting agent's id, replacing any given before.
    pub fn with_agent_id(self, agent_id: &str) -> (r: Self)
        ensures
            r.agent_id matches Some(x) && x@ == agent_id@,
            r.resource_prefix == self.resource_prefix,
            r.target == self.target,
            r.kind == self.kind,
            r.reason == self.reason,
    {
        let mut r = self;
        r.agent_id = Some(owned(agent_id));
        r
    }

    /// The Granite `requested_resource` ref for this intent.
    pub fn resource_ref(&self) -> (r: String)
        ensures
            r@ == self.resource_spec(),
    {
        let mut s = owned(self.resource_prefix.as_str());
        match &self.kind {
            PurgeKind::Row { rid } => {
                s.append(":row:");
                s.append(self.target.as_str());
                s.append("#");
                push_int_text(&mut s, *rid);
            },
            PurgeKind::Table => {
                s.append(":table:");
                s.append(self.target.as_str());
            },
        }
        s
    }

    /// The default consent-page title.
    pub fn title(&self) -> (r: String)
        ensures
            r@ == self.title_spec(),
    {
        match &self.kind {
            PurgeKind::Row { rid } => {
                let mut s = owned("Permanently delete ");
                s.append(self.target.as_str());
                s.append("#");
                push_int_text(&mut s, *rid);
                s
            },
            PurgeKind::Table => {
                let mut s = owned("Permanently drop table ");
                s.append(self.target.as_str());
                s
            },
        }
    }

    /// The single mapping from a destructive intent to a request body. A
    /// purge is always a high-risk one-time action (it creates no standing
    /// grant). `requester_app_id` is left out so an app-credentialled caller
    /// lets Granite bind it; an internal-service-token caller sets it before
    /// sending.
    pub fn to_approval_request(&self) -> (r: CreateApprovalRequest)
        ensures
            r.requester_app_id is None,
            opt_view(r.requester_agent_id) == opt_view(self.agent_id),
            r.requester_chirp_sub is None,
            r.request_type == ApprovalRequestType::OneTimeAction,
            r.title@ == self.title_spec(),
            r.summary@ == (match self.reason {
                Some(reason) => reason@,
                None => default_summary(),
            }),
            r.risk_level == ApprovalRiskLevel::High,
            r.requested_action@ == self.kind.action_name(),
            r.requested_resource@ == self.resource_spec(),
            r.requested_scopes@ == Seq::<String>::empty(),
            r.proposed_limits is None,
            r.trace_id is None,
            r.callback_url is None,
            r.callback_secret is None,
    {
        let summary = match &self.reason {
            Some(reason) => reason.clone(),
            None => owned("Permanent removal requested by an agent."),
        };
        CreateApprovalRequest {
            requester_app_id: None,
            requester_agent_id: clone_opt(&self.agent_id),
            requester_chirp_sub: None,
            request_type: ApprovalRequestType::OneTimeAction,
            title: self.title(),
            summary,
            risk_level: ApprovalRiskLevel::High,
            requested_action: owned(self.kind.action()),
            requested_resource: self.resource_ref(),
            requested_scopes: Vec::new(),
            proposed_limits: None,
            trace_id: None,
            callback_url: None,
            callback_secret: None,
        }
    }
}

/// What follows the prefix in a requested-resource ref.
pub open spec fn resource_tail(target: Seq<char>, kind: PurgeKind) -> Seq<char> {
    match kind {
        PurgeKind::Row { rid } => ":row:"@ + target + "#"@ + int_text(rid as int),
        PurgeKind::Table => ":table:"@ + target,
    }
}

/// A resource ref is its prefix followed by a tail that starts with
/// `:row:` or `:table:`.
pub proof fn lemma_resource_split(prefix: Seq<char>, target: Seq<char>, kind: PurgeKind)
    ensures
        resource_text(prefix, target, kind) == prefix + resource_tail(target, kind),
        resource_tail(target, kind).len() >= 2,
        resource_tail(target, kind)[0] == ':',
        kind is Row ==> resource_tail(target, kind)[1] == 'r',
        kind is Table ==> resource_tail(target, kind)[1] == 't',
{
    reveal_strlit(":row:");
    reveal_strlit(":table:");
    match kind {
        PurgeKind::Row { rid } => {
            let t = resource_tail(target, kind);
            assert(resource_text(prefix, target, kind) =~= prefix + t);
            assert(t[0] == (":row:"@)[0]);
            assert(t[1] == (":row:"@)[1]);
        },
        PurgeKind::Table => {
            let t = resource_tail(target, kind);
            assert(resource_text(prefix, target, kind) =~= prefix + t);
            assert(t[0] == (":table:"@)[0]);
            assert(t[1] == (":table:"@)[1]);
        },
    }
}

/// Namespacing: intents of two products whose resource prefixes differ (and
/// hold no `:`) never share a requested-resource ref, whatever their targets
/// and kinds.
pub proof fn lemma_prefixes_namespace_resources(
    p1: Seq<char>,
    t1: Seq<char>,
    k1: PurgeKind,
    p2: Seq<char>,
    t2: Seq<char>,
    k2: PurgeKind,
)
    requires
        p1 != p2,
        !p1.contains(':'),
        !p2.contains(':'),
    ensures
        resource_text(p1, t1, k1) != resource_text(p2, t2, k2),
{
    lemma_resource_split(p1, t1, k1);
    lemma_resource_split(p2, t2, k2);
    let r1 = resource_text(p1, t1, k1);
    let r2 = resource_text(p2, t2, k2);
    let a = resource_tail(t1, k1);
    let b = resource_tail(t2, k2);
    if p1.len() == p2.len() {
        if forall|j: int| 0 <= j < p1.len() ==> p1[j] == p2[j] {
            assert(p1 =~= p2);
        }
        let j = choose|j: int| 0 <= j < p1.len() && p1[j] != p2[j];
        assert(r1[j] == p1[j]);
        assert(r2[j] == p2[j]);
    } else if p1.len() < p2.len() {
        let j = p1.len() as int;
        assert(r1[j] == a[0]);
        assert(r2[j] == p2[j]);
        assert(!p2.contains(':'));
        if p2[j] == ':' {
            assert(p2.contains(':'));
        }
    } else {
        let j = p2.len() as int;
        assert(r2[j] == b[0]);
        assert(r1[j] == p1[j]);
        if p1[j] == ':' {
            assert(p1.contains(':'));
        }
    }
}

/// Under one prefix, a requested-resource ref determines the purge it names:
/// its target, its kind and, for a row, the row id.
pub proof fn lemma_resource_ref_determines_purge(
    prefix: Seq<char>,
    t1: Seq<char>,
    k1: PurgeKind,
    t2: Seq<char>,
    k2: PurgeKind,
)
    requires
        resource_text(prefix, t1, k1) == resource_text(prefix, t2, k2),
    ensures
        t1 == t2,
        k1 == k2,
{
    lemma_resource_split(prefix, t1, k1);
    lemma_resource_split(prefix, t2, k2);
    let a = resource_tail(t1, k1);
    let b = resource_tail(t2, k2);
    assert(a =~= resource_text(prefix, t1, k1).skip(prefix.len() as int));
    assert(b =~= resource_text(prefix, t2, k2).skip(prefix.len() as int));
    reveal_strlit(":row:");
    reveal_strlit(":table:");
    reveal_strlit("#");
    match (k1, k2) {
        (PurgeKind::Row { rid: r1 }, PurgeKind::Row { rid: r2 }) => {
            let d1 = int_text(r1 as int);
            let d2 = int_text(r2 as int);
            lemma_int_text_shape(r1 as int);
            lemma_int_text_shape(r2 as int);
            assert(!d1.contains('#')) by {
                if d1.contains('#') {
                    let i = choose|i: int| 0 <= i < d1.len() && d1[i] == '#';
                    assert(is_digit(d1[i]) || d1[i] == '-');
                }
            }
            assert(!d2.contains('#')) by {
                if d2.contains('#') {
                    let i = choose|i: int| 0 <= i < d2.len() && d2[i] == '#';
                    assert(is_digit(d2[i]) || d2[i] == '-');
                }
            }
            assert(a.skip(5) =~= t1 + seq!['#'] + d1);
            assert(b.skip(5) =~= t2 + seq!['#'] + d2);
            lemma_split_at_last(t1, d1, t2, d2, '#');
            lemma_int_text_injective(r1 as int, r2 as int);
        },
        (PurgeKind::Table, PurgeKind::Table) => {
            assert(t1 =~= a.skip(7));
            assert(t2 =~= b.skip(7));
        },
        (PurgeKind::Row { .. }, PurgeKind::Table) => {
            assert(a[1] != b[1]);
        },
        (PurgeKind::Table, PurgeKind::Row { .. }) => {
            assert(a[1] != b[1]);
        },
    }
}

/// The texts a purge maps to: the action verb of each kind and the summary
/// used when no reason is given.
pub proof fn lemma_purge_texts(rid: i64)
    ensures
        (PurgeKind::Row { rid }).action_name() == "purge_row"@,
        PurgeKind::Table.action_name() == "drop_table"@,
        default_summary() == "Permanent removal requested by an agent."@,
{
}

/// A consent-page title determines the purge it names: its target, its
/// kind and, for a row, the row id. In particular every row title names the
/// row, and two row titles of one target differ for different row ids.
pub proof fn lemma_title_determines_purge(t1: Seq<char>, k1: PurgeKind, t2: Seq<char>, k2: PurgeKind)
    requires
        title_text(t1, k1) == title_text(t2, k2),
    ensures
        t1 == t2,
        k1 == k2,
{
    reveal_strlit("Permanently delete ");
    reveal_strlit("Permanently drop table ");
    reveal_strlit("#");
    let a = title_text(t1, k1);
    let b = title_text(t2, k2);
    match (k1, k2) {
        (PurgeKind::Row { rid: r1 }, PurgeKind::Row { rid: r2 }) => {
            let d1 = int_text(r1 as int);
            let d2 = int_text(r2 as int);
            lemma_int_text_shape(r1 as int);
            lemma_int_text_shape(r2 as int);
            assert(!d1.contains('#')) by {
                if d1.contains('#') {
                    let i = choose|i: int| 0 <= i < d1.len() && d1[i] == '#';
                    assert(is_digit(d1[i]) || d1[i] == '-');
                }
            }
            assert(!d2.contains('#')) by {
                if d2.contains('#') {
                    let i = choose|i: int| 0 <= i < d2.len() && d2[i] == '#';
                    assert(is_digit(d2[i]) || d2[i] == '-');
                }
            }
            assert(a.skip(19) =~= t1 + seq!['#'] + d1);
            assert(b.skip(19) =~= t2 + seq!['#'] + d2);
            lemma_split_at_last(t1, d1, t2, d2, '#');
            lemma_int_text_injective(r1 as int, r2 as int);
        },
        (PurgeKind::Table, PurgeKind::Table) => {
            assert(t1 =~= a.skip(23));
            assert(t2 =~= b.skip(23));
        },
        (PurgeKind::Row { .. }, PurgeKind::Table) => {
            assert(a[13] != b[13]);
        },
        (PurgeKind::Table, PurgeKind::Row { .. }) => {
            assert(a[13] != b[13]);
        },
    }
}

/// A row purge's title ends with `#` and the row id's decimal text, which
/// reads back as the row id.
pub proof fn lemma_row_title_names_the_row(target: Seq<char>, rid: i64)
    ensures
        ({
            let t = title_text(target, PurgeKind::Row { rid });
            let d = int_text(rid as int);
            &&& t.len() > d.len()
            &&& t.subrange(t.len() - d.len(), t.len() as int) == d
            &&& t[t.len() - d.len() - 1] == '#'
            &&& int_value(d) == rid
        }),
{
    reveal_strlit("#");
    let t = title_text(target, PurgeKind::Row { rid });
    let d = int_text(rid as int);
    assert(t =~= "Permanently delete "@ + target + seq!['#'] + d);
    assert(t.subrange(t.len() - d.len(), t.len() as int) =~= d);
    lemma_int_text_value(rid as int);
}

} // verus!
