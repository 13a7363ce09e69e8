//! The typed resource model: teams, repositories, branches, permissions and
//! their wire encodings. Every value is an immutable snapshot; the wire
//! tokens are specified exactly, together with their round-trip laws.

use vstd::prelude::*;
use crate::text::str_eq;

verus! {

/// The privacy setting of a team.
#[derive(Debug, Eq, PartialEq, Copy, Clone, Structural)]
pub enum TeamPrivacy {
    Closed,
    Secret,
}

/// The role a user holds in a team.
#[derive(Debug, Eq, PartialEq, Copy, Clone, Structural)]
pub enum TeamRole {
    Member,
    Maintainer,
}

/// A team's or collaborator's access level on a repository.
///
/// `Write` keeps the legacy wire token "push" for compatibility.
#[derive(Debug, Eq, PartialEq, Copy, Clone, Structural)]
pub enum RepoPermission {
    Write,
    Admin,
    Maintain,
    Triage,
}

/// A team. `id` is absent exactly for teams synthesized under dry-run,
/// which were never persisted remotely.
#[derive(Debug, Clone, PartialEq, Eq)]
pub struct Team {
    pub id: Option<usize>,
    pub name: String,
    pub description: String,
    pub privacy: TeamPrivacy,
}

/// A member of a team, as resolved by a membership query.
#[derive(Debug, Clone, PartialEq, Eq)]
pub struct TeamMember {
    pub username: String,
    pub role: TeamRole,
}

/// A repository. `org` is the owning organization's login.
#[derive(Debug, Clone, PartialEq, Eq)]
pub struct Repo {
    pub name: String,
    pub org: String,
    pub description: Option<String>,
    pub default_branch: String,
}

/// A team's access grant on a repository.
#[derive(Debug, Clone, PartialEq, Eq)]
pub struct RepoTeam {
    pub name: String,
    pub permission: RepoPermission,
}

/// A direct collaborator's access grant on a repository.
#[derive(Debug, Clone, PartialEq, Eq)]
pub struct RepoUser {
    pub name: String,
    pub permission: RepoPermission,
}

/// A branch and the commit at its head.
#[derive(Debug, Clone, PartialEq, Eq)]
pub struct Branch {
    pub name: String,
    pub commit: Commit,
}

/// A commit, identified by its hash.
#[derive(Debug, Clone, PartialEq, Eq)]
pub struct Commit {
    pub sha: String,
}

/// The desired state for a protected branch. Write-only: there is no
/// corresponding read model.
#[derive(Debug, Clone, PartialEq, Eq)]
pub struct BranchProtection {
    pub dismiss_stale_reviews: bool,
    pub required_approving_review_count: u8,
    pub required_checks: Vec<String>,
    pub allowed_users: Vec<String>,
}

/// The wire token a privacy level is written as.
pub open spec fn privacy_wire(p: TeamPrivacy) -> Seq<char> {
    match p {
        TeamPrivacy::Closed => "closed"@,
        TeamPrivacy::Secret => "secret"@,
    }
}

/// Renders the wire token for a privacy level.
pub fn privacy_to_wire(p: TeamPrivacy) -> (r: &'static str)
    ensures
        r@ == privacy_wire(p),
{
    match p {
        TeamPrivacy::Closed => "closed",
        TeamPrivacy::Secret => "secret",
    }
}

/// The privacy level a wire token reads back as.
pub open spec fn spec_privacy_from_wire(s: Seq<char>) -> Option<TeamPrivacy> {
    if s == "closed"@ {
        Some(TeamPrivacy::Closed)
    } else if s == "secret"@ {
        Some(TeamPrivacy::Secret)
    } else {
        None
    }
}

/// Parses a privacy wire token.
pub fn privacy_from_wire(s: &str) -> (r: Option<TeamPrivacy>)
    ensures
        r == spec_privacy_from_wire(s@),
{
    if str_eq(s, "closed") {
        Some(TeamPrivacy::Closed)
    } else if str_eq(s, "secret") {
        Some(TeamPrivacy::Secret)
    } else {
        None
    }
}

/// The wire token a role is written as (lower-case).
pub open spec fn role_wire(r: TeamRole) -> Seq<char> {
    match r {
        TeamRole::Member => "member"@,
        TeamRole::Maintainer => "maintainer"@,
    }
}

/// Renders the wire token for a role.
pub fn role_to_wire(r: TeamRole) -> (s: &'static str)
    ensures
        s@ == role_wire(r),
{
    match r {
        TeamRole::Member => "member",
        TeamRole::Maintainer => "maintainer",
    }
}

/// The role a wire token reads back as. Roles are written in lower case but
/// read back in upper-case screaming-snake form, so both encodings of each
/// logical value are accepted.
pub open spec fn spec_role_from_wire(s: Seq<char>) -> Option<TeamRole> {
    if s == "member"@ || s == "MEMBER"@ {
        Some(TeamRole::Member)
    } else if s == "maintainer"@ || s == "MAINTAINER"@ {
        Some(TeamRole::Maintainer)
    } else {
        None
    }
}

/// Parses a role wire token, in either encoding.
pub fn role_from_wire(s: &str) -> (r: Option<TeamRole>)
    ensures
        r == spec_role_from_wire(s@),
{
    if str_eq(s, "member") || str_eq(s, "MEMBER") {
        Some(TeamRole::Member)
    } else if str_eq(s, "maintainer") || str_eq(s, "MAINTAINER") {
        Some(TeamRole::Maintainer)
    } else {
        None
    }
}

/// The wire token a permission is written as; `Write` keeps the legacy
/// token "push".
pub open spec fn permission_wire(p: RepoPermission) -> Seq<char> {
    match p {
        RepoPermission::Write => "push"@,
        RepoPermission::Admin => "admin"@,
        RepoPermission::Maintain => "maintain"@,
        RepoPermission::Triage => "triage"@,
    }
}

/// Renders the wire token for a permission.
pub fn permission_to_wire(p: RepoPermission) -> (r: &'static str)
    ensures
        r@ == permission_wire(p),
{
    match p {
        RepoPermission::Write => "push",
        RepoPermission::Admin => "admin",
        RepoPermission::Maintain => "maintain",
        RepoPermission::Triage => "triage",
    }
}

/// The permission a wire token reads back as.
pub open spec fn spec_permission_from_wire(s: Seq<char>) -> Option<RepoPermission> {
    if s == "push"@ {
        Some(RepoPermission::Write)
    } else if s == "admin"@ {
        Some(RepoPermission::Admin)
    } else if s == "maintain"@ {
        Some(RepoPermission::Maintain)
    } else if s == "triage"@ {
        Some(RepoPermission::Triage)
    } else {
        None
    }
}

/// Parses a permission wire token.
pub fn permission_from_wire(s: &str) -> (r: Option<RepoPermission>)
    ensures
        r == spec_permission_from_wire(s@),
{
    if str_eq(s, "push") {
        Some(RepoPermission::Write)
    } else if str_eq(s, "admin") {
        Some(RepoPermission::Admin)
    } else if str_eq(s, "maintain") {
        Some(RepoPermission::Maintain)
    } else if str_eq(s, "triage") {
        Some(RepoPermission::Triage)
    } else {
        None
    }
}

/// Round trip: every permission's wire token reads back as that same
/// permission; in particular `Write` is written as "push" and "push" reads
/// back as `Write`.
pub proof fn lemma_permission_round_trip(p: RepoPermission)
    ensures
        spec_permission_from_wire(permission_wire(p)) == Some(p),
{
    reveal_strlit("push");
    reveal_strlit("admin");
    reveal_strlit("maintain");
    reveal_strlit("triage");
    match p {
        RepoPermission::Write => {
            assert(spec_permission_from_wire(permission_wire(p)) == Some(p));
        },
        RepoPermission::Admin => {
            assert("admin"@.len() != "push"@.len());
            assert(spec_permission_from_wire(permission_wire(p)) == Some(p));
        },
        RepoPermission::Maintain => {
            assert("maintain"@.len() != "push"@.len());
            assert("maintain"@.len() != "admin"@.len());
            assert(spec_permission_from_wire(permission_wire(p)) == Some(p));
        },
        RepoPermission::Triage => {
            assert("triage"@.len() != "push"@.len());
            assert("triage"@.len() != "admin"@.len());
            assert("triage"@.len() != "maintain"@.len());
            assert(spec_permission_from_wire(permission_wire(p)) == Some(p));
        },
    }
}

/// Round trip: every role's lower-case wire token reads back as that same
/// role, and so does its screaming-snake form.
pub proof fn lemma_role_round_trip(r: TeamRole)
    ensures
        spec_role_from_wire(role_wire(r)) == Some(r),
{
    reveal_strlit("member");
    reveal_strlit("maintainer");
    reveal_strlit("MEMBER");
    reveal_strlit("MAINTAINER");
    match r {
        TeamRole::Member => {
            assert(spec_role_from_wire(role_wire(r)) == Some(r));
        },
        TeamRole::Maintainer => {
            assert("maintainer"@.len() != "member"@.len());
            assert("maintainer"@.len() != "MEMBER"@.len());
            assert(spec_role_from_wire(role_wire(r)) == Some(r));
        },
    }
}

/// Round trip: every privacy level's wire token reads back as itself.
pub proof fn lemma_privacy_round_trip(p: TeamPrivacy)
    ensures
        spec_privacy_from_wire(privacy_wire(p)) == Some(p),
{
    reveal_strlit("closed");
    reveal_strlit("secret");
    match p {
        TeamPrivacy::Closed => {
            assert(spec_privacy_from_wire(privacy_wire(p)) == Some(p));
        },
        TeamPrivacy::Secret => {
            assert("secret"@[0] != "closed"@[0]);
            assert("secret"@ != "closed"@);
            assert(spec_privacy_from_wire(privacy_wire(p)) == Some(p));
        },
    }
}

} // verus!
