//! The GraphQL engine: chunked batch resolution, envelope unwrapping and
//! membership traversal.

use std::collections::HashMap;
use forge_client::client::GitHub;
use forge_client::graphql::{
    graphql_unwrap, merge_members, merge_usernames, GraphPageInfo, MemberEdge,
};
use forge_client::model::{Team, TeamMember, TeamPrivacy, TeamRole};
use forge_client::outcome::ApiError;
use forge_client::request::HttpMethod;

fn client() -> GitHub {
    GitHub::new(String::from("SECRET-REDACTED"), false)
}

#[test]
fn usernames_requests_chunking() {
    let c = client();
    let none: Vec<usize> = vec![];
    assert_eq!(c.usernames_requests(&none).len(), 0);
    let few: Vec<usize> = (0..3).collect();
    assert_eq!(c.usernames_requests(&few).len(), 1);
    let exactly: Vec<usize> = (0..100).collect();
    assert_eq!(c.usernames_requests(&exactly).len(), 1);
    let one_more: Vec<usize> = (0..101).collect();
    assert_eq!(c.usernames_requests(&one_more).len(), 2);
    let many: Vec<usize> = (0..250).collect();
    assert_eq!(c.usernames_requests(&many).len(), 3);
}

#[test]
fn usernames_request_body() {
    let c = client();
    let ids: Vec<usize> = vec![1, 2];
    let reqs = c.usernames_requests(&ids);
    assert_eq!(reqs.len(), 1);
    let q = &reqs[0];
    assert_eq!(q.method, HttpMethod::Post);
    assert_eq!(q.url, "https://api.github.com/graphql");
    let expected = r#"{"query":"query($ids:[ID!]!){nodes(ids:$ids){...on User{databaseId login}}}","variables":{"ids":["MDQ6VXNlcjE=","MDQ6VXNlcjI="]}}"#;
    assert_eq!(q.body.as_deref(), Some(expected));
}

#[test]
fn usernames_chunks_cover_ids_in_order() {
    let c = client();
    let ids: Vec<usize> = (0..205).collect();
    let reqs = c.usernames_requests(&ids);
    assert_eq!(reqs.len(), 3);
    // The last chunk carries the remaining five ids.
    let last = reqs[2].body.as_deref().unwrap().to_string();
    let count = last.matches("MDQ6").count();
    assert_eq!(count, 5);
}

#[test]
fn graphql_unwrap_policy() {
    let ok: Result<u32, ApiError> = graphql_unwrap(Some(7), vec![]);
    assert_eq!(ok, Ok(7));

    let failed: Result<u32, ApiError> = graphql_unwrap(
        Some(7),
        vec![String::from("first failure"), String::from("second failure")],
    );
    assert_eq!(
        failed,
        Err(ApiError::GraphQl { message: String::from("first failure") })
    );

    let hollow: Result<u32, ApiError> = graphql_unwrap(None, vec![]);
    assert_eq!(hollow, Err(ApiError::Protocol));
}

#[test]
fn merge_usernames_skips_null_nodes() {
    let mut acc: HashMap<usize, String> = HashMap::new();
    let nodes = vec![
        Some((1, String::from("alice"))),
        None,
        Some((2, String::from("bob"))),
        None,
    ];
    merge_usernames(&mut acc, &nodes);
    assert_eq!(acc.len(), 2);
    assert_eq!(acc.get(&1).map(String::as_str), Some("alice"));
    assert_eq!(acc.get(&2).map(String::as_str), Some("bob"));
}

#[test]
fn merge_usernames_accumulates_across_batches() {
    let mut acc: HashMap<usize, String> = HashMap::new();
    merge_usernames(&mut acc, &vec![Some((1, String::from("alice")))]);
    merge_usernames(&mut acc, &vec![Some((2, String::from("bob"))), None]);
    assert_eq!(acc.len(), 2);
}

#[test]
fn merge_members_keys_by_user_id() {
    let mut acc: HashMap<usize, TeamMember> = HashMap::new();
    let edges = vec![
        MemberEdge { id: 1, login: String::from("alice"), role: TeamRole::Maintainer },
        MemberEdge { id: 2, login: String::from("bob"), role: TeamRole::Member },
    ];
    merge_members(&mut acc, &edges);
    assert_eq!(acc.len(), 2);
    assert_eq!(
        acc.get(&1),
        Some(&TeamMember { username: String::from("alice"), role: TeamRole::Maintainer })
    );
    assert_eq!(
        acc.get(&2),
        Some(&TeamMember { username: String::from("bob"), role: TeamRole::Member })
    );
}

#[test]
fn page_info_start() {
    let p = GraphPageInfo::start();
    assert!(p.end_cursor.is_none());
    assert!(p.has_next_page);
}

#[test]
fn memberships_short_circuit_for_unpersisted_team() {
    let c = client();
    let team = Team {
        id: None,
        name: String::from("ops"),
        description: String::new(),
        privacy: TeamPrivacy::Closed,
    };
    assert!(c.team_memberships_start(&team).is_none());
    let persisted = Team { id: Some(7), ..team };
    let page = c.team_memberships_start(&persisted).unwrap();
    assert!(page.has_next_page);
}

#[test]
fn memberships_request_body() {
    let c = client();
    let q = c.team_memberships_request(7, &GraphPageInfo::start());
    let expected = r#"{"query":"query($team:ID!,$cursor:String){node(id:$team){...on Team{members(after:$cursor){pageInfo{endCursor hasNextPage}edges{role node{databaseId login}}}}}}","variables":{"team":"MDQ6VGVhbTc=","cursor":null}}"#;
    assert_eq!(q.body.as_deref(), Some(expected));

    let cursor = GraphPageInfo { end_cursor: Some(String::from("abc")), has_next_page: true };
    let q2 = c.team_memberships_request(7, &cursor);
    let body = q2.body.unwrap();
    assert!(body.ends_with(r#""cursor":"abc"}}"#));
}

#[test]
fn graphql_reads_still_happen_under_dry_run() {
    let c = GitHub::new(String::from("SECRET-REDACTED"), true);
    let ids: Vec<usize> = vec![42];
    let reqs = c.usernames_requests(&ids);
    assert_eq!(reqs.len(), 1);
    assert_eq!(reqs[0].method, HttpMethod::Post);
    assert_eq!(reqs[0].url, "https://api.github.com/graphql");
    let q = c.team_memberships_request(7, &GraphPageInfo::start());
    assert_eq!(q.method, HttpMethod::Post);
}
