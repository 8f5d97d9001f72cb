//! Whether the browser may start, given how the name service's node answered
//! the health check.

use vstd::prelude::*;

verus! {

/// How the node answered the health check at start.
#[derive(Debug, PartialEq, Eq)]
pub enum NodeHealth {
    /// The node answered with success.
    Healthy,
    /// The node answered with another status; carries the status.
    Unhealthy(String),
    /// The node could not be reached; carries the transport's message.
    Unreachable(String),
}

/// Why the browser does not start without a healthy node.
pub open spec fn node_required() -> Seq<char> {
    "Genesis node not available and fallback disabled"@
}

/// The browser starts with a healthy node, and without one only if
/// conventional DNS may stand in.
pub open spec fn may_start(health: NodeHealth, fallback: bool) -> bool {
    health is Healthy || fallback
}

/// Decides whether the browser starts.
pub fn check_startup(health: &NodeHealth, fallback: bool) -> (r: Result<(), String>)
    ensures
        r is Ok <==> may_start(*health, fallback),
        r matches Err(why) ==> why@ == node_required(),
{
    match health {
        NodeHealth::Healthy => Ok(()),
        _ => {
            if fallback {
                Ok(())
            } else {
                Err(String::from_str("Genesis node not available and fallback disabled"))
            }
        },
    }
}

} // verus!
