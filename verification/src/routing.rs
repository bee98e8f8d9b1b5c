//! Which requests reach the health-check handler, and what the others get.

use vstd::prelude::*;
use crate::health::{health_check, health_response, HEALTH_BODY};
use crate::response::{Response, ResponseView, STATUS_NOT_FOUND};
use crate::text::str_eq;

verus! {

/// The only method the service accepts. Method tokens are case-sensitive.
pub const METHOD_GET: &'static str = "GET";

/// First of the two paths that serve the health check.
pub const ROOT_PATH: &'static str = "/";

/// Second of the two paths that serve the health check.
pub const HEALTH_PATH: &'static str = "/api/health";

/// `path` is one of the two health-check paths, character for character.
pub open spec fn is_health_path(path: Seq<char>) -> bool {
    path == ROOT_PATH@ || path == HEALTH_PATH@
}

/// A request with this method and path reaches the health-check handler.
pub open spec fn routes_to_health(method: Seq<char>, path: Seq<char>) -> bool {
    method == METHOD_GET@ && is_health_path(path)
}

/// The reply to a request that no route accepts: status 404, empty body.
pub open spec fn not_found_response() -> ResponseView {
    ResponseView { status: 404, body: Seq::empty() }
}

/// The reply the service owes to a request, as a function of method and path.
pub open spec fn response_for(method: Seq<char>, path: Seq<char>) -> ResponseView {
    if routes_to_health(method, path) {
        health_response()
    } else {
        not_found_response()
    }
}

/// Decides whether a request reaches the health-check handler.
///
/// `path` is the path component of the request target, without the query.
pub fn is_health_route(method: &str, path: &str) -> (routed: bool)
    ensures
        routed == routes_to_health(method@, path@),
{
    str_eq(method, METHOD_GET) && (str_eq(path, ROOT_PATH) || str_eq(path, HEALTH_PATH))
}

/// The reply to a request that no route accepts.
pub fn not_found() -> (reply: Response)
    ensures
        reply@ == not_found_response(),
        reply.wf(),
{
    Response { status: STATUS_NOT_FOUND, body: String::new() }
}

/// Answers a request.
///
/// `GET` on either health-check path gives status 200 with the fixed body;
/// any other method or path gives a reply whose status is not 200.
pub fn respond(method: &str, path: &str) -> (reply: Response)
    ensures
        reply@ == response_for(method@, path@),
        reply.wf(),
        routes_to_health(method@, path@) ==> reply@.status == 200 && reply@.body == HEALTH_BODY@,
        !routes_to_health(method@, path@) ==> reply@.status != 200,
{
    if is_health_route(method, path) {
        health_check()
    } else {
        not_found()
    }
}

/// A request is answered with status 200 exactly when it is a `GET` on one of
/// the two health-check paths, and then the body is the fixed text.
pub proof fn lemma_ok_exactly_on_health_routes(method: Seq<char>, path: Seq<char>)
    ensures
        response_for(method, path).status == 200 <==> routes_to_health(method, path),
        routes_to_health(method, path) ==> response_for(method, path).body == HEALTH_BODY@,
{
}

/// Every request that reaches the handler gets the same status and the same
/// body, whichever of the routes it came by: `GET /api/health` is answered
/// exactly as `GET /` is.
pub proof fn lemma_health_routes_agree(
    method_a: Seq<char>,
    path_a: Seq<char>,
    method_b: Seq<char>,
    path_b: Seq<char>,
)
    requires
        routes_to_health(method_a, path_a),
        routes_to_health(method_b, path_b),
    ensures
        response_for(method_a, path_a) == response_for(method_b, path_b),
        response_for(method_a, path_a).status == 200,
{
}

} // verus!
