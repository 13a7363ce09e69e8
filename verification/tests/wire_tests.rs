//! Wire-token codecs, node-id encoding and status-code contracts.

use forge_client::model::{
    permission_from_wire, permission_to_wire, privacy_from_wire, privacy_to_wire, role_from_wire,
    role_to_wire, RepoPermission, TeamPrivacy, TeamRole,
};
use forge_client::graphql::{team_node_id, user_node_id};
use forge_client::outcome::{interpret_fetch, is_success, status_error, ApiError, FetchOutcome};
use forge_client::client::update_branch_protection_outcome;

#[test]
fn permission_wire_tokens() {
    assert_eq!(permission_to_wire(RepoPermission::Write), "push");
    assert_eq!(permission_to_wire(RepoPermission::Admin), "admin");
    assert_eq!(permission_to_wire(RepoPermission::Maintain), "maintain");
    assert_eq!(permission_to_wire(RepoPermission::Triage), "triage");
}

#[test]
fn permission_round_trip() {
    for p in [
        RepoPermission::Write,
        RepoPermission::Admin,
        RepoPermission::Maintain,
        RepoPermission::Triage,
    ] {
        assert_eq!(permission_from_wire(permission_to_wire(p)), Some(p));
    }
    assert_eq!(permission_from_wire("push"), Some(RepoPermission::Write));
    assert_eq!(permission_from_wire("write"), None);
    assert_eq!(permission_from_wire(""), None);
}

#[test]
fn role_wire_both_encodings() {
    assert_eq!(role_to_wire(TeamRole::Member), "member");
    assert_eq!(role_to_wire(TeamRole::Maintainer), "maintainer");
    assert_eq!(role_from_wire("member"), Some(TeamRole::Member));
    assert_eq!(role_from_wire("MEMBER"), Some(TeamRole::Member));
    assert_eq!(role_from_wire("maintainer"), Some(TeamRole::Maintainer));
    assert_eq!(role_from_wire("MAINTAINER"), Some(TeamRole::Maintainer));
    assert_eq!(role_from_wire("Member"), None);
}

#[test]
fn privacy_wire_tokens() {
    assert_eq!(privacy_to_wire(TeamPrivacy::Closed), "closed");
    assert_eq!(privacy_to_wire(TeamPrivacy::Secret), "secret");
    assert_eq!(privacy_from_wire("closed"), Some(TeamPrivacy::Closed));
    assert_eq!(privacy_from_wire("secret"), Some(TeamPrivacy::Secret));
    assert_eq!(privacy_from_wire("open"), None);
}

#[test]
fn node_id_encoding() {
    assert_eq!(user_node_id(42), "MDQ6VXNlcjQy");
    assert_eq!(team_node_id(7), "MDQ6VGVhbTc=");
}

#[test]
fn node_id_encoding_more() {
    assert_eq!(user_node_id(1), "MDQ6VXNlcjE=");
    assert_eq!(user_node_id(2), "MDQ6VXNlcjI=");
    assert_eq!(team_node_id(9), "MDQ6VGVhbTk=");
}

#[test]
fn fetch_status_contract() {
    assert_eq!(interpret_fetch(200), FetchOutcome::Decode);
    assert_eq!(interpret_fetch(404), FetchOutcome::Absent);
    assert_eq!(interpret_fetch(500), FetchOutcome::Fail);
    assert_eq!(interpret_fetch(201), FetchOutcome::Fail);
    assert_eq!(interpret_fetch(403), FetchOutcome::Fail);
}

#[test]
fn success_range() {
    assert!(!is_success(199));
    assert!(is_success(200));
    assert!(is_success(299));
    assert!(!is_success(300));
    assert!(!is_success(404));
}

#[test]
fn status_error_carries_status_and_body() {
    let e = status_error(503, String::from("busy"));
    assert_eq!(e, ApiError::Http { status: 503, body: String::from("busy") });
}

#[test]
fn branch_protection_status_contract() {
    assert_eq!(update_branch_protection_outcome(200, String::new()), Ok(true));
    assert_eq!(update_branch_protection_outcome(404, String::new()), Ok(false));
    let err = update_branch_protection_outcome(422, String::from("bad checks"));
    assert_eq!(
        err,
        Err(ApiError::Http { status: 422, body: String::from("bad checks") })
    );
}
