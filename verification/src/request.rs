//! Request construction: fully-qualified URLs, the bearer-token
//! authorization header, the fixed user-agent, and the dry-run gate that
//! keeps every mutating call off the network while dry-run is active.

use vstd::prelude::*;
use crate::text::{spec_is_absolute, spec_contains_graphql, is_absolute};

verus! {

/// The HTTP method of a request.
#[derive(Debug, Eq, PartialEq, Copy, Clone, Structural)]
pub enum HttpMethod {
    Get,
    Post,
    Put,
    Patch,
    Delete,
}

/// A fully-primed outbound request: everything the transport needs.
#[derive(Debug, Clone, PartialEq, Eq)]
pub struct HttpRequest {
    pub method: HttpMethod,
    pub url: String,
    pub authorization: String,
    pub user_agent: String,
    pub body: Option<String>,
}

/// The fixed API origin every relative resource path is resolved against.
pub open spec fn api_origin() -> Seq<char> {
    "https://api.github.com/"@
}

/// The fully-qualified URL a path is dispatched to: absolute URLs are used
/// as-is, relative resource paths are prefixed with the API origin.
pub open spec fn full_url(path: Seq<char>) -> Seq<char> {
    if spec_is_absolute(path) {
        path
    } else {
        api_origin() + path
    }
}

/// The authorization header carrying the bearer token.
pub open spec fn auth_header(token: Seq<char>) -> Seq<char> {
    "token "@ + token
}

/// The fixed user-agent identifying the tool.
pub open spec fn user_agent_value() -> Seq<char> {
    "forge-client"@
}

/// The dry-run gate: while dry-run is active, only safe reads and calls to
/// the query endpoint may be dispatched. A mutating REST call under dry-run
/// is a programming error in the caller, not a recoverable condition, so it
/// is ruled out as a precondition rather than reported.
pub open spec fn dry_run_permits(dry_run: bool, method: HttpMethod, url: Seq<char>) -> bool {
    !dry_run || method == HttpMethod::Get || spec_contains_graphql(url)
}

/// Builds the request for `method` on `path`: resolves the URL and injects
/// the authorization and user-agent headers. No body yet. The dry-run gate
/// is enforced here, at the boundary every outbound call goes through.
pub fn build_request(token: &str, dry_run: bool, method: HttpMethod, path: &str) -> (r: HttpRequest)
    requires
        dry_run_permits(dry_run, method, full_url(path@)),
    ensures
        r.method == method,
        r.url@ == full_url(path@),
        r.authorization@ == auth_header(token@),
        r.user_agent@ == user_agent_value(),
        r.body is None,
{
    let mut url = String::new();
    if is_absolute(path) {
        url.append(path);
    } else {
        url.append("https://api.github.com/");
        url.append(path);
    }
    let mut authorization = String::new();
    authorization.append("token ");
    authorization.append(token);
    let mut user_agent = String::new();
    user_agent.append("forge-client");
    HttpRequest { method, url, authorization, user_agent, body: None }
}

} // verus!
