//! Where a requested navigation may go: pages of the one allowed origin load
//! in the window, every other address is handed to an outside program. The
//! rule is a plain prefix test on the address.

use vstd::prelude::*;
use crate::text::{address_view, has_prefix};

verus! {

/// The kind of decision that the page view asks for.
#[derive(Clone, Copy, Debug, PartialEq, Eq, Structural)]
pub enum DecisionKind {
    NavigationAction,
    NewWindowAction,
    Response,
    /// A kind that this shell does not know.
    Other,
}

/// What becomes of a requested navigation.
#[derive(Clone, Copy, Debug, PartialEq, Eq, Structural)]
pub enum Verdict {
    /// The page view goes there itself.
    Permit,
    /// The page view stays where it is, and the address goes to an outside
    /// program.
    Divert,
}

/// The prefix of the addresses that load in the window.
pub open spec fn allowed_origin() -> Seq<char> {
    "https://web.whatsapp.com"@
}

/// The verdict on an address.
pub open spec fn verdict_on(target: Seq<char>) -> Verdict {
    if allowed_origin().is_prefix_of(target) {
        Verdict::Permit
    } else {
        Verdict::Divert
    }
}

/// The answer to a request for a decision: a verdict for a navigation whose
/// address is known, and `None`, which leaves the decision to the page view,
/// for everything else.
pub open spec fn decision_on(kind: DecisionKind, target: Option<Seq<char>>) -> Option<Verdict> {
    match (kind, target) {
        (DecisionKind::NavigationAction, Some(address)) => Some(verdict_on(address)),
        _ => None,
    }
}

/// Decides on a navigation to `target`.
pub fn on_external_navigation_attempt(target: &str) -> (verdict: Verdict)
    ensures
        verdict == verdict_on(target@),
{
    if has_prefix(target, "https://web.whatsapp.com") {
        Verdict::Permit
    } else {
        Verdict::Divert
    }
}

/// Answers the page view's request for a decision of kind `kind` on `target`.
/// `None` reports the request as not handled.
pub fn decide_policy(kind: DecisionKind, target: Option<&str>) -> (decision: Option<Verdict>)
    ensures
        decision == decision_on(kind, address_view(target)),
{
    match kind {
        DecisionKind::NavigationAction => match target {
            Some(address) => Some(on_external_navigation_attempt(address)),
            None => None,
        },
        _ => None,
    }
}

} // verus!
