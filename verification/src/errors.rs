//! Error reporting policy: every failure is one human-readable string,
//! built as a prefix naming the failed step followed by the
//! transport's own text. The not-connected report is the one message
//! no adapter ever produces, so callers can tell the two apart.

use vstd::prelude::*;

verus! {

/// `s` starts with `prefix`.
pub open spec fn prefixed(s: Seq<char>, prefix: Seq<char>) -> bool {
    prefix.len() <= s.len() && s.take(prefix.len() as int) == prefix
}

/// The report when an operation needs a session and none is active.
pub open spec fn not_connected_msg() -> Seq<char> {
    "Not connected"@
}

/// A failure reported by an adapter: never the not-connected message
/// (every adapter prefix names its protocol or step, none starts with
/// 'N').
pub open spec fn adapter_err(s: Seq<char>) -> bool {
    s.len() > 0 && s[0] != 'N'
}

pub proof fn lemma_adapter_err_distinct(s: Seq<char>)
    requires
        adapter_err(s),
    ensures
        s != not_connected_msg(),
{
    reveal_strlit("Not connected");
}

/// The not-connected report itself.
pub fn not_connected_error() -> (r: String)
    ensures
        r@ == not_connected_msg(),
{
    String::from_str("Not connected")
}

/// Builds a step-failure report: the step's prefix followed by the
/// transport's text.
pub fn stage_err(prefix: &str, detail: String) -> (r: String)
    requires
        prefix@.len() > 0,
        prefix@[0] != 'N',
    ensures
        r@ == prefix@ + detail@,
        prefixed(r@, prefix@),
        adapter_err(r@),
{
    let mut r = prefix.to_owned();
    r.append(detail.as_str());
    proof {
        assert(r@.take(prefix@.len() as int) =~= prefix@);
    }
    r
}

} // verus!
