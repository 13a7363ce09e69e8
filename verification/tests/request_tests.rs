//! Request construction: URLs, headers, dry-run gating and the exact JSON
//! bodies of the mutating operations.

use forge_client::client::{GitHub, MutationPlan};
use forge_client::model::{BranchProtection, Repo, RepoPermission, TeamPrivacy, TeamRole};
use forge_client::request::HttpMethod;

fn live() -> GitHub {
    GitHub::new(String::from("SECRET-REDACTED"), false)
}

fn dry() -> GitHub {
    GitHub::new(String::from("SECRET-REDACTED"), true)
}

fn sample_repo() -> Repo {
    Repo {
        name: String::from("rust"),
        org: String::from("rust-lang"),
        description: None,
        default_branch: String::from("main"),
    }
}

#[test]
fn get_request_is_primed() {
    let c = live();
    let r = c.team_request("rust-lang", "ops");
    assert_eq!(r.method, HttpMethod::Get);
    assert_eq!(r.url, "https://api.github.com/orgs/rust-lang/teams/ops");
    assert_eq!(r.authorization, "token SECRET-REDACTED");
    assert_eq!(r.user_agent, "forge-client");
    assert!(r.body.is_none());
}

#[test]
fn reads_are_live_under_dry_run() {
    let c = dry();
    let r = c.repo_request("rust-lang", "rust");
    assert_eq!(r.method, HttpMethod::Get);
    assert_eq!(r.url, "https://api.github.com/repos/rust-lang/rust");
    let b = c.branch_request(&sample_repo(), "beta");
    assert_eq!(b.url, "https://api.github.com/repos/rust-lang/rust/branches/beta");
}

#[test]
fn listing_request_urls() {
    let c = live();
    assert_eq!(
        c.org_owners_request("rust-lang").url,
        "https://api.github.com/orgs/rust-lang/members?role=admin"
    );
    assert_eq!(
        c.org_teams_request("rust-lang").url,
        "https://api.github.com/orgs/rust-lang/teams"
    );
    assert_eq!(
        c.repo_teams_request("rust-lang", "rust").url,
        "https://api.github.com/repos/rust-lang/rust/teams"
    );
    assert_eq!(
        c.repo_collaborators_request("rust-lang", "rust").url,
        "https://api.github.com/repos/rust-lang/rust/collaborators?affiliation=direct"
    );
    assert_eq!(
        c.protected_branches_request(&sample_repo()).url,
        "https://api.github.com/repos/rust-lang/rust/branches?protected=true"
    );
}

#[test]
fn page_request_uses_absolute_url_as_is() {
    let c = live();
    let r = c.page_request("https://api.github.com/orgs/rust-lang/teams?page=2");
    assert_eq!(r.url, "https://api.github.com/orgs/rust-lang/teams?page=2");
    assert_eq!(r.method, HttpMethod::Get);
}

#[test]
fn create_team_dry_run_synthesizes_unpersisted_team() {
    let c = dry();
    match c.create_team("rust-lang", "ops", "the ops team", TeamPrivacy::Closed) {
        MutationPlan::Local(t) => {
            assert!(t.id.is_none());
            assert_eq!(t.name, "ops");
            assert_eq!(t.description, "the ops team");
            assert_eq!(t.privacy, TeamPrivacy::Closed);
        },
        MutationPlan::Dispatch(_) => panic!("dry-run must not dispatch"),
    }
}

#[test]
fn create_team_live_body() {
    let c = live();
    match c.create_team("rust-lang", "ops", "the ops team", TeamPrivacy::Secret) {
        MutationPlan::Local(_) => panic!("live mode must dispatch"),
        MutationPlan::Dispatch(q) => {
            assert_eq!(q.method, HttpMethod::Post);
            assert_eq!(q.url, "https://api.github.com/orgs/rust-lang/teams");
            assert_eq!(
                q.body.as_deref(),
                Some(r#"{"name":"ops","description":"the ops team","privacy":"secret"}"#)
            );
        },
    }
}

#[test]
fn edit_team_partial_fields() {
    let c = live();
    let r = c
        .edit_team("rust-lang", "ops", Some("infra"), None, Some(TeamPrivacy::Secret))
        .expect("live mode must dispatch");
    assert_eq!(r.method, HttpMethod::Patch);
    assert_eq!(r.url, "https://api.github.com/orgs/rust-lang/teams/ops");
    assert_eq!(
        r.body.as_deref(),
        Some(r#"{"name":"infra","privacy":"secret"}"#)
    );
}

#[test]
fn edit_team_no_fields_gives_empty_object() {
    let c = live();
    let r = c.edit_team("rust-lang", "ops", None, None, None).unwrap();
    assert_eq!(r.body.as_deref(), Some("{}"));
}

#[test]
fn mutations_skipped_under_dry_run() {
    let c = dry();
    let repo = sample_repo();
    assert!(c.edit_team("o", "t", Some("x"), None, None).is_none());
    assert!(c.delete_team("o", "t").is_none());
    assert!(c.set_team_membership("o", "t", "u", TeamRole::Member).is_none());
    assert!(c.remove_team_membership("o", "t", "u").is_none());
    assert!(c.edit_repo(&repo, "d").is_none());
    assert!(c
        .update_team_repo_permissions("o", "r", "t", RepoPermission::Write)
        .is_none());
    assert!(c
        .update_user_repo_permissions("o", "r", "u", RepoPermission::Admin)
        .is_none());
    assert!(c.remove_team_from_repo("o", "r", "t").is_none());
    assert!(c.remove_collaborator_from_repo("o", "r", "u").is_none());
    assert!(c.create_branch(&repo, "b", "sha").is_none());
    assert!(c.delete_branch_protection(&repo, "b").is_none());
}

#[test]
fn membership_and_permission_bodies() {
    let c = live();
    let m = c.set_team_membership("rust-lang", "ops", "alice", TeamRole::Maintainer).unwrap();
    assert_eq!(m.method, HttpMethod::Put);
    assert_eq!(
        m.url,
        "https://api.github.com/orgs/rust-lang/teams/ops/memberships/alice"
    );
    assert_eq!(m.body.as_deref(), Some(r#"{"role":"maintainer"}"#));

    let t = c
        .update_team_repo_permissions("rust-lang", "rust", "ops", RepoPermission::Write)
        .unwrap();
    assert_eq!(
        t.url,
        "https://api.github.com/orgs/rust-lang/teams/ops/repos/rust-lang/rust"
    );
    assert_eq!(t.body.as_deref(), Some(r#"{"permission":"push"}"#));

    let u = c
        .update_user_repo_permissions("rust-lang", "rust", "bob", RepoPermission::Triage)
        .unwrap();
    assert_eq!(
        u.url,
        "https://api.github.com/repos/rust-lang/rust/collaborators/bob"
    );
    assert_eq!(u.body.as_deref(), Some(r#"{"permission":"triage"}"#));
}

#[test]
fn create_repo_dry_run_and_live() {
    let dry_plan = dry().create_repo("rust-lang", "new-repo", "a repo");
    match dry_plan {
        MutationPlan::Local(r) => {
            assert_eq!(r.name, "new-repo");
            assert_eq!(r.org, "rust-lang");
            assert_eq!(r.description.as_deref(), Some("a repo"));
            assert_eq!(r.default_branch, "main");
        },
        MutationPlan::Dispatch(_) => panic!("dry-run must not dispatch"),
    }
    match live().create_repo("rust-lang", "new-repo", "a repo") {
        MutationPlan::Local(_) => panic!("live mode must dispatch"),
        MutationPlan::Dispatch(q) => {
            assert_eq!(q.url, "https://api.github.com/orgs/rust-lang/repos");
            assert_eq!(
                q.body.as_deref(),
                Some(r#"{"name":"new-repo","description":"a repo"}"#)
            );
        },
    }
}

#[test]
fn create_branch_body() {
    let c = live();
    let r = c.create_branch(&sample_repo(), "beta", "0123abcd").unwrap();
    assert_eq!(r.method, HttpMethod::Post);
    assert_eq!(r.url, "https://api.github.com/repos/rust-lang/rust/git/refs");
    assert_eq!(
        r.body.as_deref(),
        Some(r#"{"ref":"refs/heads/beta","sha":"0123abcd"}"#)
    );
}

#[test]
fn json_strings_are_escaped() {
    let c = live();
    let r = c.edit_repo(&sample_repo(), "a \"quoted\"\nline\twith \\ inside").unwrap();
    assert_eq!(
        r.body.as_deref(),
        Some(r#"{"description":"a \"quoted\"\nline\twith \\ inside"}"#)
    );
}

#[test]
fn control_characters_are_escaped() {
    let c = live();
    let r = c.edit_repo(&sample_repo(), "a\u{1}b\u{1f}c").unwrap();
    assert_eq!(r.body.as_deref(), Some("{\"description\":\"a\\u0001b\\u001fc\"}"));
}

#[test]
fn branch_protection_dry_run_reports_success() {
    let c = dry();
    let bp = BranchProtection {
        dismiss_stale_reviews: false,
        required_approving_review_count: 1,
        required_checks: vec![],
        allowed_users: vec![],
    };
    match c.update_branch_protection(&sample_repo(), "main", &bp) {
        MutationPlan::Local(applied) => assert!(applied),
        MutationPlan::Dispatch(_) => panic!("dry-run must not dispatch"),
    }
}

#[test]
fn branch_protection_live_body() {
    let c = live();
    let bp = BranchProtection {
        dismiss_stale_reviews: true,
        required_approving_review_count: 2,
        required_checks: vec![String::from("CI"), String::from("lint")],
        allowed_users: vec![String::from("bors")],
    };
    match c.update_branch_protection(&sample_repo(), "main", &bp) {
        MutationPlan::Local(_) => panic!("live mode must dispatch"),
        MutationPlan::Dispatch(q) => {
            assert_eq!(q.method, HttpMethod::Put);
            assert_eq!(
                q.url,
                "https://api.github.com/repos/rust-lang/rust/branches/main/protection"
            );
            let expected = r#"{"required_status_checks":{"strict":false,"checks":[{"context":"CI"},{"context":"lint"}]},"enforce_admins":true,"required_pull_request_reviews":{"dismissal_restrictions":{},"dismiss_stale_reviews":true,"required_approving_review_count":2},"restrictions":{"users":["bors"],"teams":[]}}"#;
            assert_eq!(q.body.as_deref(), Some(expected));
        },
    }
}

#[test]
fn branch_protection_empty_lists() {
    let c = live();
    let bp = BranchProtection {
        dismiss_stale_reviews: false,
        required_approving_review_count: 0,
        required_checks: vec![],
        allowed_users: vec![],
    };
    match c.update_branch_protection(&sample_repo(), "main", &bp) {
        MutationPlan::Local(_) => panic!("live mode must dispatch"),
        MutationPlan::Dispatch(q) => {
            let body = q.body.unwrap();
            assert!(body.contains(r#""checks":[]"#));
            assert!(body.contains(r#""users":[]"#));
            assert!(body.contains(r#""required_approving_review_count":0"#));
        },
    }
}

#[test]
fn delete_requests_have_no_body() {
    let c = live();
    let r = c.delete_team("rust-lang", "ops").unwrap();
    assert_eq!(r.method, HttpMethod::Delete);
    assert_eq!(r.url, "https://api.github.com/orgs/rust-lang/teams/ops");
    assert!(r.body.is_none());
    let p = c.delete_branch_protection(&sample_repo(), "main").unwrap();
    assert_eq!(
        p.url,
        "https://api.github.com/repos/rust-lang/rust/branches/main/protection"
    );
}
