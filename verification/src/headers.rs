//! The Granite header policy: the request headers its auth layer reads,
//! spelled once.

use vstd::prelude::*;

verus! {

/// The user the request acts on behalf of (the grant or approval owner uid).
pub const USER_ID: &'static str = "x-user-id";

/// Whether the acting user may perform writes: `"true"` or `"false"`.
pub const USER_CAN_WRITE: &'static str = "x-user-can-write";

/// The registered app id a caller authenticates as, beside its bearer secret.
pub const GRANITE_APP_ID: &'static str = "x-granite-app-id";

/// The id of the agent acting under a hosted grant.
pub const AGENT_ID: &'static str = "x-agent-id";

/// The text of the write flag for a given answer.
pub open spec fn can_write_text(can_write: bool) -> Seq<char> {
    if can_write {
        "true"@
    } else {
        "false"@
    }
}

/// The canonical `"true"` / `"false"` rendering of the write flag.
pub fn can_write_value(can_write: bool) -> (r: &'static str)
    ensures
        r@ == can_write_text(can_write),
{
    if can_write {
        "true"
    } else {
        "false"
    }
}

} // verus!
