//! Routing of the HTTP control plane: three POST-only routes, each mapped
//! to one fire-and-forget action, and a response that is always an empty
//! success whatever becomes of the action.

use vstd::prelude::*;
use vstd::string::StrSliceExecFns;
use crate::coordinator::LogicalAddress;

verus! {

/// The method of an HTTP request, as far as the control plane reads it.
#[derive(Clone, Copy, Debug, PartialEq, Eq, Structural)]
pub enum HttpMethod {
    Get,
    Post,
    Other,
}

/// The fire-and-forget action an HTTP request calls for.
#[derive(Clone, Copy, Debug, PartialEq, Eq, Structural)]
pub enum RouteAction {
    /// Send the CEC power-on command toward the given address.
    CecPowerOn(LogicalAddress),
    /// Send the CEC standby command toward the given address.
    CecStandby(LogicalAddress),
    /// Invoke the operating-system shutdown primitive.
    Shutdown,
    /// Unknown route or method: do nothing.
    NoAction,
}

/// The HTTP response of the control plane.
pub struct ControlResponse {
    pub status: u16,
    pub body: &'static str,
}

/// Compares two strings character by character.
pub fn str_eq(a: &str, b: &str) -> (r: bool)
    ensures
        r <==> a@ == b@,
{
    let a_len = a.unicode_len();
    let b_len = b.unicode_len();
    if a_len != b_len {
        assert(a@ != b@) by {
            assert(a@.len() != b@.len());
        }
        return false;
    }
    let mut i: usize = 0;
    while i < a_len
        invariant
            i <= a_len,
            a_len == a@.len(),
            a_len == b@.len(),
            forall|j: int| 0 <= j < i ==> a@[j] == b@[j],
        decreases a_len - i,
    {
        if a.get_char(i) != b.get_char(i) {
            return false;
        }
        i += 1;
    }
    assert(a@ =~= b@);
    true
}

/// The routing table: the three control paths answer POST alone, and each
/// CEC power action is directed at the TV's logical address.
pub open spec fn spec_route(m: HttpMethod, path: Seq<char>) -> RouteAction {
    if m is Post && path == "/tv-on"@ {
        RouteAction::CecPowerOn(LogicalAddress::Tv)
    } else if m is Post && path == "/tv-off"@ {
        RouteAction::CecStandby(LogicalAddress::Tv)
    } else if m is Post && path == "/pc-off"@ {
        RouteAction::Shutdown
    } else {
        RouteAction::NoAction
    }
}

/// Decides which action an HTTP request calls for.
pub fn route(m: HttpMethod, path: &str) -> (r: RouteAction)
    ensures
        r == spec_route(m, path@),
{
    if matches!(m, HttpMethod::Post) {
        if str_eq(path, "/tv-on") {
            RouteAction::CecPowerOn(LogicalAddress::Tv)
        } else if str_eq(path, "/tv-off") {
            RouteAction::CecStandby(LogicalAddress::Tv)
        } else if str_eq(path, "/pc-off") {
            RouteAction::Shutdown
        } else {
            RouteAction::NoAction
        }
    } else {
        RouteAction::NoAction
    }
}

/// Handles one control request: decides the action and builds the reply.
///
/// The response is an empty success for every request — whatever route was
/// asked for, and before anything is known of the action's own outcome.
pub fn handle_request(m: HttpMethod, path: &str) -> (r: (RouteAction, ControlResponse))
    ensures
        r.0 == spec_route(m, path@),
        r.1.status == 200,
        r.1.body@.len() == 0,
{
    let action = route(m, path);
    proof {
        reveal_strlit("");
    }
    (action, ControlResponse { status: 200, body: "" })
}

/// The control plane never powers or suspends anything but the TV, and
/// answers no method besides POST.
pub proof fn lemma_route_targets(m: HttpMethod, path: Seq<char>)
    ensures
        spec_route(m, path) matches RouteAction::CecPowerOn(t) ==> t is Tv,
        spec_route(m, path) matches RouteAction::CecStandby(t) ==> t is Tv,
        !(m is Post) ==> spec_route(m, path) == RouteAction::NoAction,
{
}

} // verus!
