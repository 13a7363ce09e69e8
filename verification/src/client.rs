//! The client: one operation per domain action. Reads always produce a live
//! request; mutations are gated on dry-run and either synthesize a local
//! result or produce the exact request to dispatch. Every request's method,
//! URL, headers and body are pinned down.

use vstd::prelude::*;
use crate::model::{Team, TeamPrivacy, TeamRole, Repo, BranchProtection};
use crate::model::{privacy_wire, role_wire, permission_wire, RepoPermission};
use crate::model::{privacy_to_wire, role_to_wire, permission_to_wire};
use crate::request::{HttpMethod, HttpRequest, full_url, auth_header, user_agent_value};
use crate::request::{build_request, dry_run_permits, api_origin};
use crate::text::spec_dec;
use crate::text::append_dec;
use crate::json::{json_string, json_string_array, json_bool, join_comma};
use crate::json::{append_json_string, append_json_string_array, append_json_bool, append_join_comma};
use crate::graphql::{graphql_body, spec_user_node_id, spec_team_node_id, chunk_count, chunk_of};
use crate::graphql::{user_node_id, team_node_id, GraphPageInfo};

verus! {

/// The client's whole configuration: the bearer token and the dry-run
/// flag, set once at construction and never mutated.
pub struct GitHub {
    pub token: String,
    pub dry_run: bool,
}

/// The plan a mutating operation returns: under dry-run a locally
/// synthesized result, otherwise the request to dispatch.
pub enum MutationPlan<T> {
    /// Dry-run: no network call; this value stands in for the result.
    Local(T),
    /// Live: dispatch this request.
    Dispatch(HttpRequest),
}

impl GitHub {
    /// A client holding a token, in the given dry-run mode.
    pub fn new(token: String, dry_run: bool) -> (r: GitHub)
        ensures
            r.token == token,
            r.dry_run == dry_run,
    {
        GitHub { token, dry_run }
    }

    /// What it means for `r` to be this client's request for `method` on
    /// `path`, with the given body: URL resolved against the API origin,
    /// token authorization and the fixed user-agent injected.
    pub open spec fn request_is(
        self,
        r: HttpRequest,
        method: HttpMethod,
        path: Seq<char>,
        body: Option<Seq<char>>,
    ) -> bool {
        &&& r.method == method
        &&& r.url@ == full_url(path)
        &&& r.authorization@ == auth_header(self.token@)
        &&& r.user_agent@ == user_agent_value()
        &&& match body {
            None => r.body is None,
            Some(b) => r.body matches Some(rb) && rb@ == b,
        }
    }

    /// What it means for `r` to be this client's query call with the given
    /// query string and variables object.
    pub open spec fn graphql_request_is(
        self,
        r: HttpRequest,
        query: Seq<char>,
        variables: Seq<char>,
    ) -> bool {
        self.request_is(r, HttpMethod::Post, "graphql"@, Some(graphql_body(query, variables)))
    }

    fn get_request(&self, path: &str) -> (r: HttpRequest)
        ensures
            self.request_is(r, HttpMethod::Get, path@, None::<Seq<char>>),
    {
        build_request(self.token.as_str(), self.dry_run, HttpMethod::Get, path)
    }

    fn dispatch_request(&self, method: HttpMethod, path: &str, body: Option<String>) -> (r:
        HttpRequest)
        requires
            !self.dry_run,
        ensures
            self.request_is(
                r,
                method,
                path@,
                match body {
                    Some(b) => Some(b@),
                    None => None,
                },
            ),
    {
        let base = build_request(self.token.as_str(), self.dry_run, method, path);
        HttpRequest {
            method: base.method,
            url: base.url,
            authorization: base.authorization,
            user_agent: base.user_agent,
            body,
        }
    }

    fn graphql_request(&self, query: &str, variables: String) -> (r: HttpRequest)
        ensures
            self.graphql_request_is(r, query@, variables@),
    {
        proof {
            lemma_graphql_path_passes_gate();
        }
        let mut body = String::new();
        body.append("{\"query\":");
        append_json_string(&mut body, query);
        body.append(",\"variables\":");
        body.append(variables.as_str());
        body.append("}");
        proof {
            assert(body@ =~= graphql_body(query@, variables@));
        }
        let base = build_request(self.token.as_str(), self.dry_run, HttpMethod::Post, "graphql");
        HttpRequest {
            method: base.method,
            url: base.url,
            authorization: base.authorization,
            user_agent: base.user_agent,
            body: Some(body),
        }
    }

    /// The request fetching a team by organization and name. Always live;
    /// the response follows the fetch-style status contract.
    pub fn team_request(&self, org: &str, team: &str) -> (r: HttpRequest)
        ensures
            self.request_is(
                r,
                HttpMethod::Get,
                "orgs/"@ + org@ + "/teams/"@ + team@,
                None::<Seq<char>>,
            ),
    {
        let mut path = String::new();
        path.append("orgs/");
        path.append(org);
        path.append("/teams/");
        path.append(team);
        proof {
            assert(path@ =~= "orgs/"@ + org@ + "/teams/"@ + team@);
        }
        self.get_request(path.as_str())
    }

    /// The request fetching a repository by organization and name.
    pub fn repo_request(&self, org: &str, repo: &str) -> (r: HttpRequest)
        ensures
            self.request_is(
                r,
                HttpMethod::Get,
                "repos/"@ + org@ + "/"@ + repo@,
                None::<Seq<char>>,
            ),
    {
        let mut path = String::new();
        path.append("repos/");
        path.append(org);
        path.append("/");
        path.append(repo);
        proof {
            assert(path@ =~= "repos/"@ + org@ + "/"@ + repo@);
        }
        self.get_request(path.as_str())
    }

    /// The request fetching a branch of a repository, for its head commit.
    pub fn branch_request(&self, repo: &Repo, name: &str) -> (r: HttpRequest)
        ensures
            self.request_is(
                r,
                HttpMethod::Get,
                "repos/"@ + repo.org@ + "/"@ + repo.name@ + "/branches/"@ + name@,
                None::<Seq<char>>,
            ),
    {
        let mut path = String::new();
        path.append("repos/");
        path.append(repo.org.as_str());
        path.append("/");
        path.append(repo.name.as_str());
        path.append("/branches/");
        path.append(name);
        proof {
            assert(path@ =~= "repos/"@ + repo.org@ + "/"@ + repo.name@ + "/branches/"@ + name@);
        }
        self.get_request(path.as_str())
    }

    /// The first-page request of the owner listing of an organization.
    pub fn org_owners_request(&self, org: &str) -> (r: HttpRequest)
        ensures
            self.request_is(
                r,
                HttpMethod::Get,
                "orgs/"@ + org@ + "/members?role=admin"@,
                None::<Seq<char>>,
            ),
    {
        let mut path = String::new();
        path.append("orgs/");
        path.append(org);
        path.append("/members?role=admin");
        proof {
            assert(path@ =~= "orgs/"@ + org@ + "/members?role=admin"@);
        }
        self.get_request(path.as_str())
    }

    /// The first-page request of the team listing of an organization.
    pub fn org_teams_request(&self, org: &str) -> (r: HttpRequest)
        ensures
            self.request_is(r, HttpMethod::Get, "orgs/"@ + org@ + "/teams"@, None::<Seq<char>>),
    {
        let mut path = String::new();
        path.append("orgs/");
        path.append(org);
        path.append("/teams");
        proof {
            assert(path@ =~= "orgs/"@ + org@ + "/teams"@);
        }
        self.get_request(path.as_str())
    }

    /// The first-page request of a repository's team-grant listing.
    pub fn repo_teams_request(&self, org: &str, repo: &str) -> (r: HttpRequest)
        ensures
            self.request_is(
                r,
                HttpMethod::Get,
                "repos/"@ + org@ + "/"@ + repo@ + "/teams"@,
                None::<Seq<char>>,
            ),
    {
        let mut path = String::new();
        path.append("repos/");
        path.append(org);
        path.append("/");
        path.append(repo);
        path.append("/teams");
        proof {
            assert(path@ =~= "repos/"@ + org@ + "/"@ + repo@ + "/teams"@);
        }
        self.get_request(path.as_str())
    }

    /// The first-page request of a repository's direct-collaborator
    /// listing.
    pub fn repo_collaborators_request(&self, org: &str, repo: &str) -> (r: HttpRequest)
        ensures
            self.request_is(
                r,
                HttpMethod::Get,
                "repos/"@ + org@ + "/"@ + repo@ + "/collaborators?affiliation=direct"@,
                None::<Seq<char>>,
            ),
    {
        let mut path = String::new();
        path.append("repos/");
        path.append(org);
        path.append("/");
        path.append(repo);
        path.append("/collaborators?affiliation=direct");
        proof {
            assert(path@ =~= "repos/"@ + org@ + "/"@ + repo@
                + "/collaborators?affiliation=direct"@);
        }
        self.get_request(path.as_str())
    }

    /// The first-page request of a repository's protected-branch listing.
    pub fn protected_branches_request(&self, repo: &Repo) -> (r: HttpRequest)
        ensures
            self.request_is(
                r,
                HttpMethod::Get,
                "repos/"@ + repo.org@ + "/"@ + repo.name@ + "/branches?protected=true"@,
                None::<Seq<char>>,
            ),
    {
        let mut path = String::new();
        path.append("repos/");
        path.append(repo.org.as_str());
        path.append("/");
        path.append(repo.name.as_str());
        path.append("/branches?protected=true");
        proof {
            assert(path@ =~= "repos/"@ + repo.org@ + "/"@ + repo.name@
                + "/branches?protected=true"@);
        }
        self.get_request(path.as_str())
    }

    /// The request for a further page of a paginated listing, at the URL a
    /// "next" relation pointed to.
    pub fn page_request(&self, url: &str) -> (r: HttpRequest)
        ensures
            self.request_is(r, HttpMethod::Get, url@, None::<Seq<char>>),
    {
        self.get_request(url)
    }

    fn plan_unit(&self, method: HttpMethod, path: &str, body: Option<String>) -> (r: Option<
        HttpRequest,
    >)
        ensures
            self.dry_run ==> r is None,
            !self.dry_run ==> (r matches Some(q) && self.request_is(
                q,
                method,
                path@,
                match body {
                    Some(b) => Some(b@),
                    None => None,
                },
            )),
    {
        if self.dry_run {
            None
        } else {
            Some(self.dispatch_request(method, path, body))
        }
    }

    /// Creates a team in an organization. Under dry-run no request is
    /// produced: the plan carries a locally synthesized team whose absent
    /// id marks it as not yet persisted.
    pub fn create_team(&self, org: &str, name: &str, description: &str, privacy: TeamPrivacy) -> (r:
        MutationPlan<Team>)
        ensures
            self.dry_run ==> (r matches MutationPlan::Local(t) && t.id is None && t.name@ == name@
                && t.description@ == description@ && t.privacy == privacy),
            !self.dry_run ==> (r matches MutationPlan::Dispatch(q) && self.request_is(
                q,
                HttpMethod::Post,
                "orgs/"@ + org@ + "/teams"@,
                Some(create_team_body(name@, description@, privacy)),
            )),
    {
        if self.dry_run {
            MutationPlan::Local(
                Team {
                    id: None,
                    name: name.to_owned(),
                    description: description.to_owned(),
                    privacy,
                },
            )
        } else {
            let mut body = String::new();
            body.append("{\"name\":");
            append_json_string(&mut body, name);
            body.append(",\"description\":");
            append_json_string(&mut body, description);
            body.append(",\"privacy\":\"");
            body.append(privacy_to_wire(privacy));
            body.append("\"}");
            proof {
                assert(body@ =~= create_team_body(name@, description@, privacy));
            }
            let mut path = String::new();
            path.append("orgs/");
            path.append(org);
            path.append("/teams");
            proof {
                assert(path@ =~= "orgs/"@ + org@ + "/teams"@);
            }
            MutationPlan::Dispatch(
                self.dispatch_request(HttpMethod::Post, path.as_str(), Some(body)),
            )
        }
    }

    /// Edits a team: only the supplied fields appear in the request body.
    /// Skipped entirely under dry-run.
    pub fn edit_team(
        &self,
        org: &str,
        name: &str,
        new_name: Option<&str>,
        new_description: Option<&str>,
        new_privacy: Option<TeamPrivacy>,
    ) -> (r: Option<HttpRequest>)
        ensures
            self.dry_run ==> r is None,
            !self.dry_run ==> (r matches Some(q) && self.request_is(
                q,
                HttpMethod::Patch,
                "orgs/"@ + org@ + "/teams/"@ + name@,
                Some(
                    edit_team_body(
                        view_opt_str(new_name),
                        view_opt_str(new_description),
                        new_privacy,
                    ),
                ),
            )),
    {
        if self.dry_run {
            return None;
        }
        let mut members: Vec<String> = Vec::new();
        if let Some(n) = new_name {
            let mut m = String::new();
            m.append("\"name\":");
            append_json_string(&mut m, n);
            members.push(m);
        }
        if let Some(d) = new_description {
            let mut m = String::new();
            m.append("\"description\":");
            append_json_string(&mut m, d);
            members.push(m);
        }
        if let Some(p) = new_privacy {
            let mut m = String::new();
            m.append("\"privacy\":\"");
            m.append(privacy_to_wire(p));
            m.append("\"");
            members.push(m);
        }
        proof {
            assert(members.deep_view() =~= edit_team_members(
                view_opt_str(new_name),
                view_opt_str(new_description),
                new_privacy,
            ));
        }
        let mut body = String::new();
        body.append("{");
        append_join_comma(&mut body, &members);
        body.append("}");
        proof {
            assert(body@ =~= edit_team_body(
                view_opt_str(new_name),
                view_opt_str(new_description),
                new_privacy,
            ));
        }
        let mut path = String::new();
        path.append("orgs/");
        path.append(org);
        path.append("/teams/");
        path.append(name);
        proof {
            assert(path@ =~= "orgs/"@ + org@ + "/teams/"@ + name@);
        }
        self.plan_unit(HttpMethod::Patch, path.as_str(), Some(body))
    }

    /// Deletes a team. Skipped entirely under dry-run.
    pub fn delete_team(&self, org: &str, team: &str) -> (r: Option<HttpRequest>)
        ensures
            self.dry_run ==> r is None,
            !self.dry_run ==> (r matches Some(q) && self.request_is(
                q,
                HttpMethod::Delete,
                "orgs/"@ + org@ + "/teams/"@ + team@,
                None::<Seq<char>>,
            )),
    {
        let mut path = String::new();
        path.append("orgs/");
        path.append(org);
        path.append("/teams/");
        path.append(team);
        proof {
            assert(path@ =~= "orgs/"@ + org@ + "/teams/"@ + team@);
        }
        self.plan_unit(HttpMethod::Delete, path.as_str(), None)
    }

    /// Sets a user's membership in a team to a role. Skipped entirely
    /// under dry-run.
    pub fn set_team_membership(&self, org: &str, team: &str, user: &str, role: TeamRole) -> (r:
        Option<HttpRequest>)
        ensures
            self.dry_run ==> r is None,
            !self.dry_run ==> (r matches Some(q) && self.request_is(
                q,
                HttpMethod::Put,
                "orgs/"@ + org@ + "/teams/"@ + team@ + "/memberships/"@ + user@,
                Some(role_body(role)),
            )),
    {
        let mut body = String::new();
        body.append("{\"role\":\"");
        body.append(role_to_wire(role));
        body.append("\"}");
        proof {
            assert(body@ =~= role_body(role));
        }
        let mut path = String::new();
        path.append("orgs/");
        path.append(org);
        path.append("/teams/");
        path.append(team);
        path.append("/memberships/");
        path.append(user);
        proof {
            assert(path@ =~= "orgs/"@ + org@ + "/teams/"@ + team@ + "/memberships/"@ + user@);
        }
        self.plan_unit(HttpMethod::Put, path.as_str(), Some(body))
    }

    /// Removes a user from a team. Skipped entirely under dry-run.
    pub fn remove_team_membership(&self, org: &str, team: &str, user: &str) -> (r: Option<
        HttpRequest,
    >)
        ensures
            self.dry_run ==> r is None,
            !self.dry_run ==> (r matches Some(q) && self.request_is(
                q,
                HttpMethod::Delete,
                "orgs/"@ + org@ + "/teams/"@ + team@ + "/memberships/"@ + user@,
                None::<Seq<char>>,
            )),
    {
        let mut path = String::new();
        path.append("orgs/");
        path.append(org);
        path.append("/teams/");
        path.append(team);
        path.append("/memberships/");
        path.append(user);
        proof {
            assert(path@ =~= "orgs/"@ + org@ + "/teams/"@ + team@ + "/memberships/"@ + user@);
        }
        self.plan_unit(HttpMethod::Delete, path.as_str(), None)
    }

    /// Creates a repository. Under dry-run the plan carries a locally
    /// synthesized repository with the default branch "main".
    pub fn create_repo(&self, org: &str, name: &str, description: &str) -> (r: MutationPlan<Repo>)
        ensures
            self.dry_run ==> (r matches MutationPlan::Local(p) && p.name@ == name@ && p.org@
                == org@ && (p.description matches Some(d) && d@ == description@)
                && p.default_branch@ == "main"@),
            !self.dry_run ==> (r matches MutationPlan::Dispatch(q) && self.request_is(
                q,
                HttpMethod::Post,
                "orgs/"@ + org@ + "/repos"@,
                Some(create_repo_body(name@, description@)),
            )),
    {
        if self.dry_run {
            MutationPlan::Local(
                Repo {
                    name: name.to_owned(),
                    org: org.to_owned(),
                    description: Some(description.to_owned()),
                    default_branch: "main".to_owned(),
                },
            )
        } else {
            let mut body = String::new();
            body.append("{\"name\":");
            append_json_string(&mut body, name);
            body.append(",\"description\":");
            append_json_string(&mut body, description);
            body.append("}");
            proof {
                assert(body@ =~= create_repo_body(name@, description@));
            }
            let mut path = String::new();
            path.append("orgs/");
            path.append(org);
            path.append("/repos");
            proof {
                assert(path@ =~= "orgs/"@ + org@ + "/repos"@);
            }
            MutationPlan::Dispatch(
                self.dispatch_request(HttpMethod::Post, path.as_str(), Some(body)),
            )
        }
    }

    /// Replaces a repository's description. Skipped entirely under
    /// dry-run.
    pub fn edit_repo(&self, repo: &Repo, description: &str) -> (r: Option<HttpRequest>)
        ensures
            self.dry_run ==> r is None,
            !self.dry_run ==> (r matches Some(q) && self.request_is(
                q,
                HttpMethod::Patch,
                "repos/"@ + repo.org@ + "/"@ + repo.name@,
                Some(edit_repo_body(description@)),
            )),
    {
        let mut body = String::new();
        body.append("{\"description\":");
        append_json_string(&mut body, description);
        body.append("}");
        proof {
            assert(body@ =~= edit_repo_body(description@));
        }
        let mut path = String::new();
        path.append("repos/");
        path.append(repo.org.as_str());
        path.append("/");
        path.append(repo.name.as_str());
        proof {
            assert(path@ =~= "repos/"@ + repo.org@ + "/"@ + repo.name@);
        }
        self.plan_unit(HttpMethod::Patch, path.as_str(), Some(body))
    }

    /// Updates a team's permission on a repository. Skipped entirely under
    /// dry-run.
    pub fn update_team_repo_permissions(
        &self,
        org: &str,
        repo: &str,
        team: &str,
        permission: RepoPermission,
    ) -> (r: Option<HttpRequest>)
        ensures
            self.dry_run ==> r is None,
            !self.dry_run ==> (r matches Some(q) && self.request_is(
                q,
                HttpMethod::Put,
                "orgs/"@ + org@ + "/teams/"@ + team@ + "/repos/"@ + org@ + "/"@ + repo@,
                Some(permission_body(permission)),
            )),
    {
        let body = permission_body_exec(permission);
        let mut path = String::new();
        path.append("orgs/");
        path.append(org);
        path.append("/teams/");
        path.append(team);
        path.append("/repos/");
        path.append(org);
        path.append("/");
        path.append(repo);
        proof {
            assert(path@ =~= "orgs/"@ + org@ + "/teams/"@ + team@ + "/repos/"@ + org@ + "/"@
                + repo@);
        }
        self.plan_unit(HttpMethod::Put, path.as_str(), Some(body))
    }

    /// Updates a direct collaborator's permission on a repository. Skipped
    /// entirely under dry-run.
    pub fn update_user_repo_permissions(
        &self,
        org: &str,
        repo: &str,
        user: &str,
        permission: RepoPermission,
    ) -> (r: Option<HttpRequest>)
        ensures
            self.dry_run ==> r is None,
            !self.dry_run ==> (r matches Some(q) && self.request_is(
                q,
                HttpMethod::Put,
                "repos/"@ + org@ + "/"@ + repo@ + "/collaborators/"@ + user@,
                Some(permission_body(permission)),
            )),
    {
        let body = permission_body_exec(permission);
        let mut path = String::new();
        path.append("repos/");
        path.append(org);
        path.append("/");
        path.append(repo);
        path.append("/collaborators/");
        path.append(user);
        proof {
            assert(path@ =~= "repos/"@ + org@ + "/"@ + repo@ + "/collaborators/"@ + user@);
        }
        self.plan_unit(HttpMethod::Put, path.as_str(), Some(body))
    }

    /// Removes a team from a repository. Skipped entirely under dry-run.
    pub fn remove_team_from_repo(&self, org: &str, repo: &str, team: &str) -> (r: Option<
        HttpRequest,
    >)
        ensures
            self.dry_run ==> r is None,
            !self.dry_run ==> (r matches Some(q) && self.request_is(
                q,
                HttpMethod::Delete,
                "orgs/"@ + org@ + "/teams/"@ + team@ + "/repos/"@ + org@ + "/"@ + repo@,
                None::<Seq<char>>,
            )),
    {
        let mut path = String::new();
        path.append("orgs/");
        path.append(org);
        path.append("/teams/");
        path.append(team);
        path.append("/repos/");
        path.append(org);
        path.append("/");
        path.append(repo);
        proof {
            assert(path@ =~= "orgs/"@ + org@ + "/teams/"@ + team@ + "/repos/"@ + org@ + "/"@
                + repo@);
        }
        self.plan_unit(HttpMethod::Delete, path.as_str(), None)
    }

    /// Removes a direct collaborator from a repository. Skipped entirely
    /// under dry-run.
    pub fn remove_collaborator_from_repo(&self, org: &str, repo: &str, collaborator: &str) -> (r:
        Option<HttpRequest>)
        ensures
            self.dry_run ==> r is None,
            !self.dry_run ==> (r matches Some(q) && self.request_is(
                q,
                HttpMethod::Delete,
                "repos/"@ + org@ + "/"@ + repo@ + "/collaborators/"@ + collaborator@,
                None::<Seq<char>>,
            )),
    {
        let mut path = String::new();
        path.append("repos/");
        path.append(org);
        path.append("/");
        path.append(repo);
        path.append("/collaborators/");
        path.append(collaborator);
        proof {
            assert(path@ =~= "repos/"@ + org@ + "/"@ + repo@ + "/collaborators/"@ + collaborator@);
        }
        self.plan_unit(HttpMethod::Delete, path.as_str(), None)
    }

    /// Creates a branch at a commit. Skipped entirely under dry-run.
    pub fn create_branch(&self, repo: &Repo, name: &str, commit: &str) -> (r: Option<HttpRequest>)
        ensures
            self.dry_run ==> r is None,
            !self.dry_run ==> (r matches Some(q) && self.request_is(
                q,
                HttpMethod::Post,
                "repos/"@ + repo.org@ + "/"@ + repo.name@ + "/git/refs"@,
                Some(create_branch_body(name@, commit@)),
            )),
    {
        let mut refname = String::new();
        refname.append("refs/heads/");
        refname.append(name);
        let mut body = String::new();
        body.append("{\"ref\":");
        append_json_string(&mut body, refname.as_str());
        body.append(",\"sha\":");
        append_json_string(&mut body, commit);
        body.append("}");
        proof {
            assert(refname@ =~= "refs/heads/"@ + name@);
            assert(body@ =~= create_branch_body(name@, commit@));
        }
        let mut path = String::new();
        path.append("repos/");
        path.append(repo.org.as_str());
        path.append("/");
        path.append(repo.name.as_str());
        path.append("/git/refs");
        proof {
            assert(path@ =~= "repos/"@ + repo.org@ + "/"@ + repo.name@ + "/git/refs"@);
        }
        self.plan_unit(HttpMethod::Post, path.as_str(), Some(body))
    }

    /// Applies the desired protection to a branch. Under dry-run the plan
    /// reports success without a network call; live, the response status is
    /// interpreted by `update_branch_protection_outcome`.
    pub fn update_branch_protection(
        &self,
        repo: &Repo,
        branch_name: &str,
        branch_protection: &BranchProtection,
    ) -> (r: MutationPlan<bool>)
        ensures
            self.dry_run ==> r == MutationPlan::<bool>::Local(true),
            !self.dry_run ==> (r matches MutationPlan::Dispatch(q) && self.request_is(
                q,
                HttpMethod::Put,
                "repos/"@ + repo.org@ + "/"@ + repo.name@ + "/branches/"@ + branch_name@
                    + "/protection"@,
                Some(
                    branch_protection_body(
                        branch_protection.dismiss_stale_reviews,
                        branch_protection.required_approving_review_count as nat,
                        branch_protection.required_checks.deep_view(),
                        branch_protection.allowed_users.deep_view(),
                    ),
                ),
            )),
    {
        if self.dry_run {
            return MutationPlan::Local(true);
        }
        let body = branch_protection_body_exec(branch_protection);
        let mut path = String::new();
        path.append("repos/");
        path.append(repo.org.as_str());
        path.append("/");
        path.append(repo.name.as_str());
        path.append("/branches/");
        path.append(branch_name);
        path.append("/protection");
        proof {
            assert(path@ =~= "repos/"@ + repo.org@ + "/"@ + repo.name@ + "/branches/"@
                + branch_name@ + "/protection"@);
        }
        MutationPlan::Dispatch(self.dispatch_request(HttpMethod::Put, path.as_str(), Some(body)))
    }

    /// Removes a branch's protection. Skipped entirely under dry-run.
    pub fn delete_branch_protection(&self, repo: &Repo, branch: &str) -> (r: Option<HttpRequest>)
        ensures
            self.dry_run ==> r is None,
            !self.dry_run ==> (r matches Some(q) && self.request_is(
                q,
                HttpMethod::Delete,
                "repos/"@ + repo.org@ + "/"@ + repo.name@ + "/branches/"@ + branch@
                    + "/protection"@,
                None::<Seq<char>>,
            )),
    {
        let mut path = String::new();
        path.append("repos/");
        path.append(repo.org.as_str());
        path.append("/");
        path.append(repo.name.as_str());
        path.append("/branches/");
        path.append(branch);
        path.append("/protection");
        proof {
            assert(path@ =~= "repos/"@ + repo.org@ + "/"@ + repo.name@ + "/branches/"@ + branch@
                + "/protection"@);
        }
        self.plan_unit(HttpMethod::Delete, path.as_str(), None)
    }
}

impl GitHub {
    /// The query calls of a batch username resolution: the ids are encoded
    /// into global node ids and batched into chunks of at most 100, so a
    /// batch of n ids takes exactly ceil(n / 100) calls, the k-th call
    /// carrying the k-th chunk in order.
    pub fn usernames_requests(&self, ids: &Vec<usize>) -> (r: Vec<HttpRequest>)
        ensures
            r@.len() == chunk_count(ids@.len()),
            forall|k: int|
                0 <= k < r@.len() ==> self.graphql_request_is(
                    #[trigger] r@[k],
                    usernames_query_text(),
                    usernames_variables(chunk_of(ids@, k)),
                ),
    {
        let n = ids.len();
        let mut out: Vec<HttpRequest> = Vec::new();
        let mut idx: usize = 0;
        while idx < n
            invariant
                0 <= idx <= n,
                n == ids@.len(),
                idx == out@.len() * 100 || (idx == n && out@.len() == chunk_count(n as nat)),
                forall|k: int|
                    0 <= k < out@.len() ==> self.graphql_request_is(
                        #[trigger] out@[k],
                        usernames_query_text(),
                        usernames_variables(chunk_of(ids@, k)),
                    ),
            decreases n - idx,
        {
            let end = if n - idx > 100 {
                idx + 100
            } else {
                n
            };
            let ghost l: int = out@.len() as int;
            let mut node_ids: Vec<String> = Vec::new();
            let mut j = idx;
            while j < end
                invariant
                    idx <= j <= end <= n,
                    n == ids@.len(),
                    node_ids@.len() == j - idx,
                    forall|t: int|
                        0 <= t < node_ids@.len() ==> node_ids@[t]@ == spec_user_node_id(
                            ids@[idx + t] as nat,
                        ),
                decreases end - j,
            {
                node_ids.push(user_node_id(ids[j]));
                j += 1;
            }
            let mut vars = String::new();
            vars.append("{\"ids\":");
            proof {
                let chunk = chunk_of(ids@, l);
                let mapped = chunk.map_values(|id: usize| spec_user_node_id(id as nat));
                assert(chunk.len() == end - idx);
                assert forall|t: int| 0 <= t < node_ids@.len() implies node_ids.deep_view()[t]
                    == mapped[t] by {
                    assert(node_ids.deep_view()[t] == node_ids@[t]@);
                    assert(chunk[t] == ids@[idx + t]);
                }
                assert(node_ids.deep_view() =~= mapped);
            }
            append_json_string_array(&mut vars, &node_ids);
            vars.append("}");
            proof {
                assert(vars@ =~= usernames_variables(chunk_of(ids@, l)));
            }
            let req = self.graphql_request(usernames_query(), vars);
            out.push(req);
            proof {
                if end < n {
                    assert(out@.len() * 100 == end);
                } else {
                    assert(out@.len() == l + 1);
                    assert(l * 100 < n <= l * 100 + 100);
                    assert(chunk_count(n as nat) == l + 1);
                }
            }
            idx = end;
        }
        proof {
            if n == 0 {
                assert(chunk_count(0) == 0);
            } else {
                assert(idx == n);
                if out@.len() * 100 == idx {
                    assert(chunk_count(n as nat) == out@.len());
                }
            }
        }
        out
    }

    /// Starts a membership traversal. A team created under dry-run has no
    /// persisted id: the traversal yields nothing without ever contacting
    /// the network. Otherwise the cursor starts empty with a page to fetch.
    pub fn team_memberships_start(&self, team: &Team) -> (r: Option<GraphPageInfo>)
        ensures
            team.id is None ==> r is None,
            team.id is Some ==> (r matches Some(p) && p.end_cursor is None && p.has_next_page),
    {
        match team.id {
            None => None,
            Some(_) => Some(GraphPageInfo::start()),
        }
    }

    /// The query call for one page of a team's membership connection, at
    /// the traversal's current cursor.
    pub fn team_memberships_request(&self, team_id: usize, page: &GraphPageInfo) -> (r:
        HttpRequest)
        ensures
            self.graphql_request_is(
                r,
                memberships_query_text(),
                memberships_variables(
                    team_id as nat,
                    crate::pagination::view_opt(page.end_cursor),
                ),
            ),
    {
        let node = team_node_id(team_id);
        let mut vars = String::new();
        vars.append("{\"team\":");
        append_json_string(&mut vars, node.as_str());
        vars.append(",\"cursor\":");
        match &page.end_cursor {
            None => {
                vars.append("null");
            },
            Some(c) => {
                append_json_string(&mut vars, c.as_str());
            },
        }
        vars.append("}");
        proof {
            assert(vars@ =~= memberships_variables(
                team_id as nat,
                crate::pagination::view_opt(page.end_cursor),
            ));
        }
        self.graphql_request(memberships_query(), vars)
    }
}

/// The fixed query of the batch username resolution.
pub open spec fn usernames_query_text() -> Seq<char> {
    "query($ids:[ID!]!){nodes(ids:$ids){...on User{databaseId login}}}"@
}

/// Renders the batch username query.
pub fn usernames_query() -> (r: &'static str)
    ensures
        r@ == usernames_query_text(),
{
    "query($ids:[ID!]!){nodes(ids:$ids){...on User{databaseId login}}}"
}

/// The fixed query of the membership connection traversal.
pub open spec fn memberships_query_text() -> Seq<char> {
    "query($team:ID!,$cursor:String){node(id:$team){...on Team{members(after:$cursor){pageInfo{endCursor hasNextPage}edges{role node{databaseId login}}}}}}"@
}

/// Renders the membership query.
pub fn memberships_query() -> (r: &'static str)
    ensures
        r@ == memberships_query_text(),
{
    "query($team:ID!,$cursor:String){node(id:$team){...on Team{members(after:$cursor){pageInfo{endCursor hasNextPage}edges{role node{databaseId login}}}}}}"
}

/// The variables object of a batch username query: the chunk's ids, each
/// encoded as a global user node id.
pub open spec fn usernames_variables(ids: Seq<usize>) -> Seq<char> {
    "{\"ids\":"@ + json_string_array(ids.map_values(|id: usize| spec_user_node_id(id as nat)))
        + "}"@
}

/// The variables object of a membership query: the team's global node id
/// and the current cursor, `null` at the start of the traversal.
pub open spec fn memberships_variables(team_id: nat, cursor: Option<Seq<char>>) -> Seq<char> {
    "{\"team\":"@ + json_string(spec_team_node_id(team_id)) + ",\"cursor\":"@ + (match cursor {
        None => "null"@,
        Some(c) => json_string(c),
    }) + "}"@
}

/// The view of an optional string slice.
pub open spec fn view_opt_str(o: Option<&str>) -> Option<Seq<char>> {
    match o {
        Some(s) => Some(s@),
        None => None,
    }
}

/// The body of a create-team request.
pub open spec fn create_team_body(
    name: Seq<char>,
    description: Seq<char>,
    privacy: TeamPrivacy,
) -> Seq<char> {
    "{\"name\":"@ + json_string(name) + ",\"description\":"@ + json_string(description)
        + ",\"privacy\":\""@ + privacy_wire(privacy) + "\"}"@
}

/// A member list made of at most one rendered member.
pub open spec fn opt_member(m: Option<Seq<char>>) -> Seq<Seq<char>> {
    match m {
        Some(x) => seq![x],
        None => Seq::empty(),
    }
}

/// The members of an edit-team body: exactly the supplied fields.
pub open spec fn edit_team_members(
    new_name: Option<Seq<char>>,
    new_description: Option<Seq<char>>,
    new_privacy: Option<TeamPrivacy>,
) -> Seq<Seq<char>> {
    opt_member(
        match new_name {
            Some(n) => Some("\"name\":"@ + json_string(n)),
            None => None,
        },
    ) + opt_member(
        match new_description {
            Some(d) => Some("\"description\":"@ + json_string(d)),
            None => None,
        },
    ) + opt_member(
        match new_privacy {
            Some(p) => Some("\"privacy\":\""@ + privacy_wire(p) + "\""@),
            None => None,
        },
    )
}

/// The body of an edit-team request.
pub open spec fn edit_team_body(
    new_name: Option<Seq<char>>,
    new_description: Option<Seq<char>>,
    new_privacy: Option<TeamPrivacy>,
) -> Seq<char> {
    "{"@ + join_comma(edit_team_members(new_name, new_description, new_privacy)) + "}"@
}

/// The body of a membership update.
pub open spec fn role_body(role: TeamRole) -> Seq<char> {
    "{\"role\":\""@ + role_wire(role) + "\"}"@
}

/// The body of a create-repository request.
pub open spec fn create_repo_body(name: Seq<char>, description: Seq<char>) -> Seq<char> {
    "{\"name\":"@ + json_string(name) + ",\"description\":"@ + json_string(description) + "}"@
}

/// The body of an edit-repository request.
pub open spec fn edit_repo_body(description: Seq<char>) -> Seq<char> {
    "{\"description\":"@ + json_string(description) + "}"@
}

/// The body of a permission update.
pub open spec fn permission_body(p: RepoPermission) -> Seq<char> {
    "{\"permission\":\""@ + permission_wire(p) + "\"}"@
}

fn permission_body_exec(p: RepoPermission) -> (r: String)
    ensures
        r@ == permission_body(p),
{
    let mut body = String::new();
    body.append("{\"permission\":\"");
    body.append(permission_to_wire(p));
    body.append("\"}");
    proof {
        assert(body@ =~= permission_body(p));
    }
    body
}

/// The body of a create-branch request: the fully-qualified ref and the
/// commit to point it at.
pub open spec fn create_branch_body(name: Seq<char>, commit: Seq<char>) -> Seq<char> {
    "{\"ref\":"@ + json_string("refs/heads/"@ + name) + ",\"sha\":"@ + json_string(commit) + "}"@
}

/// The status-check list of a branch-protection body.
pub open spec fn checks_array(checks: Seq<Seq<char>>) -> Seq<char> {
    "["@ + join_comma(
        checks.map_values(|c: Seq<char>| "{\"context\":"@ + json_string(c) + "}"@),
    ) + "]"@
}

/// The body of a branch-protection update: strict checks off, admins
/// enforced, no dismissal restrictions, push restricted to the allowed
/// users and to no team.
pub open spec fn branch_protection_body(
    dismiss_stale_reviews: bool,
    required_approving_review_count: nat,
    required_checks: Seq<Seq<char>>,
    allowed_users: Seq<Seq<char>>,
) -> Seq<char> {
    "{\"required_status_checks\":{\"strict\":false,\"checks\":"@ + checks_array(required_checks)
        + "},\"enforce_admins\":true,\"required_pull_request_reviews\":{\"dismissal_restrictions\":{},\"dismiss_stale_reviews\":"@
        + json_bool(dismiss_stale_reviews) + ",\"required_approving_review_count\":"@ + spec_dec(
        required_approving_review_count,
    ) + "},\"restrictions\":{\"users\":"@ + json_string_array(allowed_users) + ",\"teams\":[]}}"@
}

fn branch_protection_body_exec(bp: &BranchProtection) -> (r: String)
    ensures
        r@ == branch_protection_body(
            bp.dismiss_stale_reviews,
            bp.required_approving_review_count as nat,
            bp.required_checks.deep_view(),
            bp.allowed_users.deep_view(),
        ),
{
    let ghost cv: Seq<Seq<char>> = bp.required_checks.deep_view();
    let mut items: Vec<String> = Vec::new();
    let n = bp.required_checks.len();
    let mut i: usize = 0;
    while i < n
        invariant
            0 <= i <= n,
            n == bp.required_checks@.len(),
            cv == bp.required_checks.deep_view(),
            cv.len() == bp.required_checks@.len(),
            forall|j: int| 0 <= j < cv.len() ==> cv[j] == bp.required_checks@[j]@,
            items@.len() == i,
            forall|j: int|
                0 <= j < i ==> items@[j]@ == "{\"context\":"@ + json_string(cv[j]) + "}"@,
        decreases n - i,
    {
        let mut item = String::new();
        item.append("{\"context\":");
        append_json_string(&mut item, bp.required_checks[i].as_str());
        item.append("}");
        items.push(item);
        i += 1;
    }
    let mut body = String::new();
    body.append("{\"required_status_checks\":{\"strict\":false,\"checks\":");
    body.append("[");
    proof {
        let mapped = cv.map_values(|c: Seq<char>| "{\"context\":"@ + json_string(c) + "}"@);
        assert forall|j: int| 0 <= j < items@.len() implies items.deep_view()[j] == mapped[j] by {
            assert(items.deep_view()[j] == items@[j]@);
        }
        assert(items.deep_view() =~= mapped);
    }
    append_join_comma(&mut body, &items);
    body.append("]");
    body.append(
        "},\"enforce_admins\":true,\"required_pull_request_reviews\":{\"dismissal_restrictions\":{},\"dismiss_stale_reviews\":",
    );
    append_json_bool(&mut body, bp.dismiss_stale_reviews);
    body.append(",\"required_approving_review_count\":");
    append_dec(&mut body, bp.required_approving_review_count as usize);
    body.append("},\"restrictions\":{\"users\":");
    append_json_string_array(&mut body, &bp.allowed_users);
    body.append(",\"teams\":[]}}");
    proof {
        assert(body@ =~= branch_protection_body(
            bp.dismiss_stale_reviews,
            bp.required_approving_review_count as nat,
            cv,
            bp.allowed_users.deep_view(),
        ));
    }
    body
}

/// The branch-protection status contract: 200 means the protection was
/// applied, 404 means the target branch does not exist — a boolean, not an
/// error, so callers can decide to create the branch first — and any other
/// status is a hard error carrying status and body.
pub fn update_branch_protection_outcome(status: u16, body: String) -> (r: Result<
    bool,
    crate::outcome::ApiError,
>)
    ensures
        r == (if status == 200 {
            Ok::<bool, crate::outcome::ApiError>(true)
        } else if status == 404 {
            Ok::<bool, crate::outcome::ApiError>(false)
        } else {
            Err::<bool, crate::outcome::ApiError>(crate::outcome::ApiError::Http { status, body })
        }),
{
    if status == 200 {
        Ok(true)
    } else if status == 404 {
        Ok(false)
    } else {
        Err(crate::outcome::ApiError::Http { status, body })
    }
}

/// The query endpoint's URL contains "graphql", so the dry-run gate lets a
/// query call through in either mode.
proof fn lemma_graphql_path_passes_gate()
    ensures
        forall|dry_run: bool, m: HttpMethod|
            #[trigger] dry_run_permits(dry_run, m, full_url("graphql"@)),
{
    reveal_strlit("graphql");
    reveal_strlit("https://api.github.com/");
    assert(!crate::text::spec_is_absolute("graphql"@));
    let u = api_origin() + "graphql"@;
    let i: int = 23;
    assert(u.subrange(i, i + 7) =~= "graphql"@);
    assert(0 <= i && i + 7 <= u.len() && u.subrange(i, i + 7) == "graphql"@);
    assert(crate::text::spec_contains_graphql(u));
    assert(full_url("graphql"@) == u);
}

} // verus!
