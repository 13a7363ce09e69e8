//! The GraphQL engine: global node-id encoding, the query payloads, the
//! `{data, errors}` envelope policy, chunked batch resolution of usernames,
//! and cursor-paginated team-membership traversal.

use vstd::prelude::*;
use std::collections::HashMap;
use crate::text::spec_dec_bytes;
use crate::text::push_dec_bytes;
use crate::json::{json_string, json_string_array};
use crate::model::{TeamMember, TeamRole};
use crate::outcome::ApiError;

verus! {

broadcast use vstd::std_specs::hash::group_hash_axioms;

/// What base64 encoding (standard alphabet, padded) yields for a byte
/// sequence.
pub uninterp spec fn base64_of(bytes: Seq<u8>) -> Seq<char>;

/// Relies on base64::encode: standard-alphabet, padded encoding, a function
/// of the input bytes alone.
#[verifier::external_body]
fn encode_base64(bytes: &Vec<u8>) -> (r: String)
    ensures
        r@ == base64_of(bytes@),
        bytes@.len() == 0 ==> r@.len() == 0,
{
    base64::encode(bytes.as_slice())
}

/// The ASCII bytes of "04:User", the global-id discriminator for users.
pub open spec fn user_node_prefix() -> Seq<u8> {
    seq![0x30u8, 0x34u8, 0x3au8, 0x55u8, 0x73u8, 0x65u8, 0x72u8]
}

/// The ASCII bytes of "04:Team", the global-id discriminator for teams.
pub open spec fn team_node_prefix() -> Seq<u8> {
    seq![0x30u8, 0x34u8, 0x3au8, 0x54u8, 0x65u8, 0x61u8, 0x6du8]
}

/// The platform-global node id of the user with database id `id`.
pub open spec fn spec_user_node_id(id: nat) -> Seq<char> {
    base64_of(user_node_prefix() + spec_dec_bytes(id))
}

/// The platform-global node id of the team with database id `id`.
pub open spec fn spec_team_node_id(id: nat) -> Seq<char> {
    base64_of(team_node_prefix() + spec_dec_bytes(id))
}

/// Encodes a user's database id into its global node id: the base64
/// encoding of the discriminator "04:User" followed by the decimal id.
/// This must match the platform's internal id scheme exactly; a mismatch
/// makes queries silently resolve to no node.
pub fn user_node_id(id: usize) -> (r: String)
    ensures
        r@ == spec_user_node_id(id as nat),
{
    // "04:User" as ASCII bytes
    let mut bytes: Vec<u8> = Vec::new();
    bytes.push(0x30);
    bytes.push(0x34);
    bytes.push(0x3a);
    bytes.push(0x55);
    bytes.push(0x73);
    bytes.push(0x65);
    bytes.push(0x72);
    push_dec_bytes(&mut bytes, id);
    proof {
        assert(bytes@ =~= user_node_prefix() + spec_dec_bytes(id as nat));
    }
    encode_base64(&bytes)
}

/// Encodes a team's database id into its global node id, discriminated by
/// "04:Team".
pub fn team_node_id(id: usize) -> (r: String)
    ensures
        r@ == spec_team_node_id(id as nat),
{
    // "04:Team" as ASCII bytes
    let mut bytes: Vec<u8> = Vec::new();
    bytes.push(0x30);
    bytes.push(0x34);
    bytes.push(0x3a);
    bytes.push(0x54);
    bytes.push(0x65);
    bytes.push(0x61);
    bytes.push(0x6d);
    push_dec_bytes(&mut bytes, id);
    proof {
        assert(bytes@ =~= team_node_prefix() + spec_dec_bytes(id as nat));
    }
    encode_base64(&bytes)
}

/// The request body of a query call: the fixed query string and its
/// variables object.
pub open spec fn graphql_body(query: Seq<char>, variables: Seq<char>) -> Seq<char> {
    "{\"query\":"@ + json_string(query) + ",\"variables\":"@ + variables + "}"@
}

/// The envelope policy: a non-empty error list fails with the first
/// reported message, an envelope with neither data nor errors is a protocol
/// violation, and otherwise the data is returned.
pub fn graphql_unwrap<T>(data: Option<T>, errors: Vec<String>) -> (r: Result<T, ApiError>)
    ensures
        errors@.len() > 0 ==> r == Err::<T, ApiError>(
            ApiError::GraphQl { message: errors@[0] },
        ),
        errors@.len() == 0 && data is None ==> r == Err::<T, ApiError>(ApiError::Protocol),
        errors@.len() == 0 ==> (data matches Some(d) ==> r == Ok::<T, ApiError>(d)),
{
    if errors.len() > 0 {
        let message = errors[0].clone();
        Err(ApiError::GraphQl { message })
    } else {
        match data {
            Some(d) => Ok(d),
            None => Err(ApiError::Protocol),
        }
    }
}

/// The cursor state of a connection traversal.
#[derive(Debug, Clone, PartialEq, Eq)]
pub struct GraphPageInfo {
    pub end_cursor: Option<String>,
    pub has_next_page: bool,
}

impl GraphPageInfo {
    /// The state a traversal starts from: no cursor, and at least one page
    /// still to fetch.
    pub fn start() -> (r: GraphPageInfo)
        ensures
            r.end_cursor is None,
            r.has_next_page,
    {
        GraphPageInfo { end_cursor: None, has_next_page: true }
    }
}

/// How many query calls a batch of `n` ids takes: `ceil(n / 100)`.
pub open spec fn chunk_count(n: nat) -> nat {
    (n + 99) / 100
}

/// The `k`-th chunk of `ids`.
pub open spec fn chunk_of(ids: Seq<usize>, k: int) -> Seq<usize> {
    ids.subrange(k * 100, if (k + 1) * 100 <= ids.len() {
        (k + 1) * 100
    } else {
        ids.len() as int
    })
}

/// A resolved node from a batch username query: a database id and the
/// login it resolved to, or nothing for a node that resolved to null.
pub type ResolvedNode = Option<(usize, String)>;

/// The pairs the resolved nodes contribute, null nodes skipped.
pub open spec fn resolved_pairs(nodes: Seq<ResolvedNode>) -> Seq<(usize, String)>
    decreases nodes.len(),
{
    if nodes.len() == 0 {
        Seq::empty()
    } else {
        let rest = resolved_pairs(nodes.drop_last());
        match nodes.last() {
            Some(p) => rest.push(p),
            None => rest,
        }
    }
}

/// The map after inserting each resolved pair in order.
pub open spec fn merged_usernames(
    acc: Map<usize, String>,
    pairs: Seq<(usize, String)>,
) -> Map<usize, String>
    decreases pairs.len(),
{
    if pairs.len() == 0 {
        acc
    } else {
        merged_usernames(acc, pairs.drop_last()).insert(pairs.last().0, pairs.last().1)
    }
}

/// Merges one batch's resolved nodes into the id-to-username mapping:
/// every resolved pair is inserted, and nodes that resolved to null are
/// skipped without failing.
pub fn merge_usernames(acc: &mut HashMap<usize, String>, nodes: &Vec<ResolvedNode>)
    ensures
        final(acc)@ == merged_usernames(old(acc)@, resolved_pairs(nodes@)),
{
    let ghost all: Seq<ResolvedNode> = nodes@;
    let n = nodes.len();
    let mut i: usize = 0;
    while i < n
        invariant
            0 <= i <= n,
            n == all.len(),
            nodes@ == all,
            acc@ == merged_usernames(old(acc)@, resolved_pairs(all.take(i as int))),
        decreases n - i,
    {
        proof {
            let done = resolved_pairs(all.take(i as int));
            assert(all.take(i + 1).drop_last() =~= all.take(i as int));
            assert(all.take(i + 1).last() == all[i as int]);
            match all[i as int] {
                Some(p) => {
                    assert(resolved_pairs(all.take(i + 1)) == done.push(p));
                    assert(done.push(p).drop_last() =~= done);
                    assert(done.push(p).last() == p);
                    assert(merged_usernames(old(acc)@, done.push(p)) == merged_usernames(
                        old(acc)@,
                        done,
                    ).insert(p.0, p.1));
                },
                None => {
                    assert(resolved_pairs(all.take(i + 1)) == done);
                },
            }
        }
        match &nodes[i] {
            Some((id, login)) => {
                let owned: String = login.clone();
                acc.insert(*id, owned);
            },
            None => {},
        }
        i += 1;
    }
    proof {
        assert(all.take(n as int) =~= all);
    }
}

/// One member edge of a membership page: the user's database id, login and
/// role in the team.
#[derive(Debug, Clone, PartialEq, Eq)]
pub struct MemberEdge {
    pub id: usize,
    pub login: String,
    pub role: TeamRole,
}

/// The membership map after merging a page of edges in order.
pub open spec fn merged_members(
    acc: Map<usize, TeamMember>,
    edges: Seq<MemberEdge>,
) -> Map<usize, TeamMember>
    decreases edges.len(),
{
    if edges.len() == 0 {
        acc
    } else {
        merged_members(acc, edges.drop_last()).insert(
            edges.last().id,
            TeamMember { username: edges.last().login, role: edges.last().role },
        )
    }
}

/// Merges one page of member edges into the membership mapping, keyed by
/// user id.
pub fn merge_members(acc: &mut HashMap<usize, TeamMember>, edges: &Vec<MemberEdge>)
    ensures
        final(acc)@ == merged_members(old(acc)@, edges@),
{
    let ghost all: Seq<MemberEdge> = edges@;
    let n = edges.len();
    let mut i: usize = 0;
    while i < n
        invariant
            0 <= i <= n,
            n == all.len(),
            edges@ == all,
            acc@ == merged_members(old(acc)@, all.take(i as int)),
        decreases n - i,
    {
        let edge = &edges[i];
        let login: String = edge.login.clone();
        acc.insert(edge.id, TeamMember { username: login, role: edge.role });
        proof {
            assert(all.take(i + 1).drop_last() =~= all.take(i as int));
            assert(all.take(i + 1).last() == all[i as int]);
        }
        i += 1;
    }
    proof {
        assert(all.take(n as int) =~= all);
    }
}

} // verus!
