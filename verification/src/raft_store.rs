//! Persisted raft metadata and static member records: what an upsert keyed by
//! node id stores.
use vstd::prelude::*;

verus! {

/// Prefix of generated raft metadata row ids.
pub const METADATA_ID_PREFIX: &'static str = "raft_meta";

/// Prefix of generated raft member row ids.
pub const MEMBER_ID_PREFIX: &'static str = "raft_member";

/// Raft metadata upsert input.
#[derive(Debug)]
pub struct UpsertRaftMetadata {
    /// Logical cluster identifier.
    pub cluster_id: String,
    /// Stable local node id.
    pub node_id: String,
    /// Last known Raft term.
    pub current_term: i64,
    /// Vote target in the current term.
    pub voted_for: Option<String>,
    /// Last committed index.
    pub commit_index: i64,
    /// Last applied index.
    pub applied_index: i64,
}

/// Raft member upsert input.
#[derive(Debug)]
pub struct UpsertRaftMember {
    /// Stable member node id.
    pub node_id: String,
    /// Peer endpoint reachable through container/K8s networking.
    pub endpoint: String,
    /// Member lifecycle status.
    pub status: String,
}

/// Stored Raft metadata summary.
#[derive(Debug)]
pub struct RaftMetadataSummary {
    /// Metadata row identifier.
    pub id: String,
    /// Logical cluster identifier.
    pub cluster_id: String,
    /// Stable local node id.
    pub node_id: String,
    /// Last known Raft term.
    pub current_term: i64,
    /// Vote target in the current term.
    pub voted_for: Option<String>,
    /// Last committed index.
    pub commit_index: i64,
    /// Last applied index.
    pub applied_index: i64,
    /// Last update timestamp.
    pub updated_at: String,
}

/// Stored Raft member summary.
#[derive(Debug)]
pub struct RaftMemberSummary {
    /// Member row identifier.
    pub id: String,
    /// Stable member node id.
    pub node_id: String,
    /// Peer endpoint reachable through container/K8s networking.
    pub endpoint: String,
    /// Member lifecycle status.
    pub status: String,
    /// Creation timestamp.
    pub created_at: String,
    /// Last update timestamp.
    pub updated_at: String,
}

/// Metadata row stored by an upsert: the existing row for the node with the
/// input's state, or a new row under `fresh_id`.
pub open spec fn upserted_metadata(
    existing: Option<RaftMetadataSummary>,
    input: UpsertRaftMetadata,
    fresh_id: String,
    now: String,
) -> RaftMetadataSummary {
    match existing {
        Some(row) => RaftMetadataSummary {
            id: row.id,
            cluster_id: input.cluster_id,
            node_id: row.node_id,
            current_term: input.current_term,
            voted_for: input.voted_for,
            commit_index: input.commit_index,
            applied_index: input.applied_index,
            updated_at: now,
        },
        None => RaftMetadataSummary {
            id: fresh_id,
            cluster_id: input.cluster_id,
            node_id: input.node_id,
            current_term: input.current_term,
            voted_for: input.voted_for,
            commit_index: input.commit_index,
            applied_index: input.applied_index,
            updated_at: now,
        },
    }
}

/// Member row stored by an upsert: the existing row for the node with the
/// input's endpoint and status, or a new row under `fresh_id`.
pub open spec fn upserted_member(
    existing: Option<RaftMemberSummary>,
    input: UpsertRaftMember,
    fresh_id: String,
    now: String,
) -> RaftMemberSummary {
    match existing {
        Some(row) => RaftMemberSummary {
            id: row.id,
            node_id: row.node_id,
            endpoint: input.endpoint,
            status: input.status,
            created_at: row.created_at,
            updated_at: now,
        },
        None => RaftMemberSummary {
            id: fresh_id,
            node_id: input.node_id,
            endpoint: input.endpoint,
            status: input.status,
            created_at: now,
            updated_at: now,
        },
    }
}

/// Row that upserting local raft metadata stores, given the row already stored
/// for the input's node id, if any.
pub fn upsert_metadata_row(
    existing: Option<RaftMetadataSummary>,
    input: UpsertRaftMetadata,
    fresh_id: String,
    now: String,
) -> (row: RaftMetadataSummary)
    ensures
        row == upserted_metadata(existing, input, fresh_id, now),
{
    match existing {
        Some(mut active) => {
            active.cluster_id = input.cluster_id;
            active.current_term = input.current_term;
            active.voted_for = input.voted_for;
            active.commit_index = input.commit_index;
            active.applied_index = input.applied_index;
            active.updated_at = now;
            active
        },
        None => RaftMetadataSummary {
            id: fresh_id,
            cluster_id: input.cluster_id,
            node_id: input.node_id,
            current_term: input.current_term,
            voted_for: input.voted_for,
            commit_index: input.commit_index,
            applied_index: input.applied_index,
            updated_at: now,
        },
    }
}

/// Row that upserting a raft member stores, given the row already stored for
/// the input's node id, if any.
pub fn upsert_member_row(
    existing: Option<RaftMemberSummary>,
    input: UpsertRaftMember,
    fresh_id: String,
    now: String,
) -> (row: RaftMemberSummary)
    ensures
        row == upserted_member(existing, input, fresh_id, now),
{
    match existing {
        Some(mut active) => {
            active.endpoint = input.endpoint;
            active.status = input.status;
            active.updated_at = now;
            active
        },
        None => RaftMemberSummary {
            id: fresh_id,
            node_id: input.node_id,
            endpoint: input.endpoint,
            status: input.status,
            created_at: now.clone(),
            updated_at: now,
        },
    }
}

/// Reading back an upserted metadata row gives the written state under the
/// node's id; a row already stored for the node keeps its row id.
pub proof fn lemma_metadata_upsert_reads_back(
    existing: Option<RaftMetadataSummary>,
    input: UpsertRaftMetadata,
    fresh_id: String,
    now: String,
)
    requires
        existing matches Some(row) ==> row.node_id == input.node_id,
    ensures
        ({
            let row = upserted_metadata(existing, input, fresh_id, now);
            &&& row.node_id == input.node_id
            &&& row.cluster_id == input.cluster_id
            &&& row.current_term == input.current_term
            &&& row.voted_for == input.voted_for
            &&& row.commit_index == input.commit_index
            &&& row.applied_index == input.applied_index
            &&& row.updated_at == now
            &&& row.id == match existing {
                Some(old_row) => old_row.id,
                None => fresh_id,
            }
        }),
{
}

/// Upserting the same metadata again onto the stored row changes nothing but
/// the update time.
pub proof fn lemma_metadata_upsert_idempotent(
    existing: Option<RaftMetadataSummary>,
    input: UpsertRaftMetadata,
    fresh_id: String,
    other_id: String,
    now: String,
)
    requires
        existing matches Some(row) ==> row.node_id == input.node_id,
    ensures
        upserted_metadata(Some(upserted_metadata(existing, input, fresh_id, now)), input, other_id, now)
            == upserted_metadata(existing, input, fresh_id, now),
{
}

/// Reading back an upserted member row gives the written endpoint and status
/// under the node's id; a stored member keeps its row id and creation time.
pub proof fn lemma_member_upsert_reads_back(
    existing: Option<RaftMemberSummary>,
    input: UpsertRaftMember,
    fresh_id: String,
    now: String,
)
    requires
        existing matches Some(row) ==> row.node_id == input.node_id,
    ensures
        ({
            let row = upserted_member(existing, input, fresh_id, now);
            &&& row.node_id == input.node_id
            &&& row.endpoint == input.endpoint
            &&& row.status == input.status
            &&& row.updated_at == now
            &&& row.id == match existing {
                Some(old_row) => old_row.id,
                None => fresh_id,
            }
            &&& row.created_at == match existing {
                Some(old_row) => old_row.created_at,
                None => now,
            }
        }),
{
}

/// Upserting the same member again onto the stored row changes nothing.
pub proof fn lemma_member_upsert_idempotent(
    existing: Option<RaftMemberSummary>,
    input: UpsertRaftMember,
    fresh_id: String,
    other_id: String,
    now: String,
)
    requires
        existing matches Some(row) ==> row.node_id == input.node_id,
    ensures
        upserted_member(Some(upserted_member(existing, input, fresh_id, now)), input, other_id, now)
            == upserted_member(existing, input, fresh_id, now),
{
}

} // verus!
