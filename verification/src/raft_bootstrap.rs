//! raft-rs bootstrap checks: deterministic numeric node ids, voter sets, and
//! the construction of a raft node without driving it.
//!
//! Bootstrapping validates the crate, configuration and storage boundary only:
//! it does not start an event loop, campaign, or grant scheduler ownership.
use vstd::prelude::*;
use vstd::utf8::encode_utf8;
use sha2::Digest;

verus! {

/// Runtime library label exposed in diagnostics.
pub const RAFT_RS_LIBRARY: &'static str = "tikv/raft-rs crate raft 0.7.0";

/// Heartbeat interval, in ticks, of the bootstrap raft configuration.
pub const BOOTSTRAP_HEARTBEAT_TICK: usize = 2;

/// Election timeout, in ticks, of the bootstrap raft configuration.
pub const BOOTSTRAP_ELECTION_TICK: usize = 20;

/// Cluster operating mode read from configuration.
#[derive(Debug)]
pub enum ClusterModeConfig {
    /// Raft-based coordination between scheduler nodes.
    Raft,
}

/// One configured scheduler peer.
#[derive(Debug)]
pub struct ClusterPeerConfig {
    /// Scheduler string node id of the peer.
    pub node_id: String,
    /// Endpoint at which the peer is reachable.
    pub endpoint: String,
}

/// Cluster section of the scheduler configuration.
#[derive(Debug)]
pub struct ClusterConfig {
    /// Cluster operating mode.
    pub mode: ClusterModeConfig,
    /// Scheduler string node id of this node.
    pub node_id: String,
    /// Configured peers, possibly including this node.
    pub peers: Vec<ClusterPeerConfig>,
}

/// Role of a raft node.
#[derive(Clone, Copy, PartialEq, Eq, Structural, Debug)]
pub enum RaftRole {
    /// The node follows a leader.
    Follower,
    /// The node campaigns for leadership.
    Candidate,
    /// The node leads.
    Leader,
    /// The node probes whether it could win an election.
    PreCandidate,
}

/// Safe bootstrap status produced by constructing a raft node without driving it.
#[derive(Debug)]
pub struct RaftRsBootstrapStatus {
    /// Scheduler string node id from configuration.
    pub node_id: String,
    /// Deterministic raft-rs numeric node id derived from `node_id`.
    pub raft_node_id: u64,
    /// Numeric voter ids derived from the configured peers, ascending.
    pub voter_ids: Vec<u64>,
    /// Initial raft-rs role after construction; never scheduler ownership.
    pub initial_role: String,
    /// Whether the freshly constructed node reports ready work.
    pub has_ready: bool,
}

/// SHA-256 digest of a byte string.
pub uninterp spec fn sha256(data: Seq<u8>) -> Seq<u8>;

/// SHA-256 digest, computed by the `sha2` crate.
///
/// Trusted: `sha2::Sha256::digest`; the contract claims that the digest is the
/// value named `sha256` of the input and that it is 32 bytes long.
#[verifier::external_body]
fn sha256_digest(data: &[u8]) -> (digest: Vec<u8>)
    ensures
        digest@ == sha256(data@),
        digest@.len() == 32,
{
    sha2::Sha256::digest(data).to_vec()
}

/// Big-endian value of a byte string.
pub open spec fn big_endian(bytes: Seq<u8>) -> nat
    decreases bytes.len(),
{
    if bytes.len() == 0 {
        0
    } else {
        big_endian(bytes.drop_last()) * 256 + bytes.last() as nat
    }
}

/// `256` raised to `n`.
pub open spec fn pow256(n: nat) -> nat
    decreases n,
{
    if n == 0 {
        1
    } else {
        pow256((n - 1) as nat) * 256
    }
}

/// Raft numeric id of a scheduler node id: the first eight bytes of the SHA-256
/// digest of its UTF-8 text, read big-endian, with zero mapped to one.
pub open spec fn raft_id(node_id: Seq<char>) -> u64 {
    let v = big_endian(sha256(encode_utf8(node_id)).take(8));
    if v == 0 {
        1
    } else {
        v as u64
    }
}

/// Deterministically maps a scheduler string node id to a raft-rs `u64` node id.
pub fn raft_numeric_id(node_id: &str) -> (id: u64)
    ensures
        id == raft_id(node_id@),
        id != 0,
{
    let digest = sha256_digest(node_id.as_bytes());
    assert(pow256(8) == 18446744073709551616) by {
        reveal_with_fuel(pow256, 9);
    }
    let mut acc: u128 = 0;
    let mut i: usize = 0;
    while i < 8
        invariant
            i <= 8,
            digest@.len() == 32,
            acc as nat == big_endian(digest@.take(i as int)),
            acc < pow256(i as nat),
            pow256(i as nat) <= pow256(8),
            pow256(8) == 18446744073709551616,
        decreases 8 - i,
    {
        let ghost pre = digest@.take(i + 1);
        assert(pre.drop_last() =~= digest@.take(i as int));
        let b = digest[i];
        assert(acc * 256 + 255 <= pow256(i as nat) * 256 - 1) by (nonlinear_arith)
            requires
                acc < pow256(i as nat),
        ;
        acc = acc * 256 + b as u128;
        i = i + 1;
        proof {
            if i < 8 {
                lemma_pow256_monotone(i as nat, 8);
            }
        }
    }
    if acc == 0 {
        1
    } else {
        acc as u64
    }
}

proof fn lemma_pow256_monotone(a: nat, b: nat)
    requires
        a <= b,
    ensures
        pow256(a) <= pow256(b),
    decreases b,
{
    if a < b {
        lemma_pow256_monotone(a, (b - 1) as nat);
        lemma_pow256_positive((b - 1) as nat);
    }
}

proof fn lemma_pow256_positive(n: nat)
    ensures
        pow256(n) >= 1,
    decreases n,
{
    if n > 0 {
        lemma_pow256_positive((n - 1) as nat);
    }
}

/// Raft ids of the configured peers.
pub open spec fn peer_raft_ids(peers: Seq<ClusterPeerConfig>) -> Seq<u64> {
    peers.map_values(|p: ClusterPeerConfig| raft_id(p.node_id@))
}

/// Peer `i` collides: its raft id is already taken by this node or an earlier
/// peer, and it does not name this node.
pub open spec fn peer_collides(config: ClusterConfig, local_id: u64, i: int) -> bool {
    let ids = peer_raft_ids(config.peers@);
    &&& (ids[i] == local_id || exists|j: int| 0 <= j < i && ids[j] == ids[i])
    &&& config.peers@[i].node_id@ != config.node_id@
}

/// The first colliding peer is at index `i`.
pub open spec fn first_collision(config: ClusterConfig, local_id: u64, i: int) -> bool {
    &&& 0 <= i < config.peers@.len()
    &&& peer_collides(config, local_id, i)
    &&& forall|j: int| 0 <= j < i ==> !peer_collides(config, local_id, j)
}

/// Message reporting a raft id collision for a peer.
pub open spec fn collision_message(peer_node_id: Seq<char>) -> Seq<char> {
    "raft-rs numeric node id collision for configured peer "@ + peer_node_id
}

/// Strictly ascending.
pub open spec fn strictly_ascending(v: Seq<u64>) -> bool {
    forall|a: int, b: int| 0 <= a < b < v.len() ==> v[a] < v[b]
}

/// The voter set: this node's raft id and those of all peers.
pub open spec fn is_voter(config: ClusterConfig, local_id: u64, x: u64) -> bool {
    x == local_id || peer_raft_ids(config.peers@).contains(x)
}

/// Inserts `x` into a strictly ascending vector; reports whether it was absent.
fn insert_ascending(v: &mut Vec<u64>, x: u64) -> (inserted: bool)
    requires
        strictly_ascending(old(v)@),
    ensures
        strictly_ascending(final(v)@),
        inserted == !old(v)@.contains(x),
        forall|y: u64| final(v)@.contains(y) <==> (old(v)@.contains(y) || y == x),
{
    let mut i: usize = 0;
    while i < v.len() && v[i] < x
        invariant
            i <= v.len(),
            strictly_ascending(v@),
            forall|k: int| 0 <= k < i ==> v@[k] < x,
        decreases v.len() - i,
    {
        i = i + 1;
    }
    if i < v.len() && v[i] == x {
        return false;
    }
    let ghost old_v = v@;
    assert(!old_v.contains(x)) by {
        if old_v.contains(x) {
            let k = choose|k: int| 0 <= k < old_v.len() && old_v[k] == x;
            if k >= i {
                assert(old_v[i as int] <= old_v[k]);
            }
        }
    }
    v.insert(i, x);
    assert forall|y: u64| v@.contains(y) <==> (old_v.contains(y) || y == x) by {
        if v@.contains(y) {
            let k = choose|k: int| 0 <= k < v@.len() && v@[k] == y;
            if k < i {
                assert(old_v[k] == y);
            } else if k > i {
                assert(old_v[k - 1] == y);
            }
        }
        if old_v.contains(y) {
            let k = choose|k: int| 0 <= k < old_v.len() && old_v[k] == y;
            if k < i {
                assert(v@[k] == y);
            } else {
                assert(v@[k + 1] == y);
            }
        }
        if y == x {
            assert(v@[i as int] == y);
        }
    }
    true
}

/// Numeric voter ids of the configured peers together with this node, ascending
/// and without repeats; a peer whose id collides with an earlier one (and that
/// does not name this node) is reported instead.
pub fn voter_ids(config: &ClusterConfig, local_id: u64) -> (res: Result<Vec<u64>, String>)
    ensures
        match res {
            Ok(v) => {
                &&& forall|i: int| 0 <= i < config.peers@.len() ==> !peer_collides(*config, local_id, i)
                &&& strictly_ascending(v@)
                &&& forall|x: u64| v@.contains(x) <==> is_voter(*config, local_id, x)
            },
            Err(msg) => exists|i: int|
                first_collision(*config, local_id, i) && msg@ == collision_message(
                    config.peers@[i].node_id@,
                ),
        },
{
    let mut voters: Vec<u64> = Vec::new();
    voters.push(local_id);
    assert forall|x: u64| voters@.contains(x) <==> x == local_id by {
        if x == local_id {
            assert(voters@[0] == x);
        }
    }
    let ghost ids = peer_raft_ids(config.peers@);
    let mut i: usize = 0;
    while i < config.peers.len()
        invariant
            i <= config.peers.len(),
            ids == peer_raft_ids(config.peers@),
            ids.len() == config.peers@.len(),
            strictly_ascending(voters@),
            forall|x: u64|
                voters@.contains(x) <==> (x == local_id || exists|j: int| 0 <= j < i && ids[j] == x),
            forall|j: int| 0 <= j < i ==> !peer_collides(*config, local_id, j),
        decreases config.peers.len() - i,
    {
        let peer = &config.peers[i];
        let peer_id = raft_numeric_id(peer.node_id.as_str());
        assert(peer_id == ids[i as int]);
        let inserted = insert_ascending(&mut voters, peer_id);
        if !inserted && peer.node_id != config.node_id {
            let mut msg = String::from_str("raft-rs numeric node id collision for configured peer ");
            msg.append(peer.node_id.as_str());
            assert(first_collision(*config, local_id, i as int));
            return Err(msg);
        }
        proof {
            if !inserted {
                assert(!peer_collides(*config, local_id, i as int));
            } else {
                assert(!(ids[i as int] == local_id || exists|j: int| 0 <= j < i && ids[j] == ids[i as int]));
            }
        }
        i = i + 1;
    }
    assert forall|x: u64| voters@.contains(x) <==> is_voter(*config, local_id, x) by {
        if ids.contains(x) {
            let j = choose|j: int| 0 <= j < ids.len() && ids[j] == x;
            assert(exists|j: int| 0 <= j < i && ids[j] == x);
        }
        if exists|j: int| 0 <= j < i && ids[j] == x {
            let j = choose|j: int| 0 <= j < i && ids[j] == x;
            assert(ids.contains(x));
        }
    }
    Ok(voters)
}

/// Name of a raft role, as shown in diagnostics.
pub fn raft_role_name(role: RaftRole) -> (name: &'static str)
    ensures
        name@ == role_name(role),
{
    match role {
        RaftRole::Follower => "follower",
        RaftRole::Candidate => "candidate",
        RaftRole::Leader => "leader",
        RaftRole::PreCandidate => "pre_candidate",
    }
}

/// Diagnostic name of a raft role.
pub open spec fn role_name(role: RaftRole) -> Seq<char> {
    match role {
        RaftRole::Follower => "follower"@,
        RaftRole::Candidate => "candidate"@,
        RaftRole::Leader => "leader"@,
        RaftRole::PreCandidate => "pre_candidate"@,
    }
}

/// Validates a raft-rs configuration built from `Config::new(id)` with the given
/// ticks and flags and raft-rs defaults elsewhere.
///
/// Trusted: `raft::Config::new` and `raft::Config::validate`; the contract claims
/// what the raft-rs 0.7.0 source of `validate` shows for such a configuration: it
/// is accepted exactly when the id is non-zero, the heartbeat tick is positive and
/// the election tick exceeds it, and each refusal carries the message given.
#[verifier::external_body]
fn raft_config_check(
    id: u64,
    heartbeat_tick: usize,
    election_tick: usize,
    check_quorum: bool,
    pre_vote: bool,
) -> (res: Result<(), String>)
    requires
        election_tick <= usize::MAX / 2,
    ensures
        match res {
            Ok(()) => id != 0 && heartbeat_tick > 0 && election_tick > heartbeat_tick,
            Err(e) => e@ == (if id == 0 {
                "invalid node id"@
            } else if heartbeat_tick == 0 {
                "heartbeat tick must greater than 0"@
            } else {
                "election tick must be greater than heartbeat tick"@
            }) && !(id != 0 && heartbeat_tick > 0 && election_tick > heartbeat_tick),
        },
{
    let mut config = raft::Config::new(id);
    config.heartbeat_tick = heartbeat_tick;
    config.election_tick = election_tick;
    config.check_quorum = check_quorum;
    config.pre_vote = pre_vote;
    config.validate().map_err(|error| error.to_string())
}

/// Outcome of constructing a raft-rs node over in-memory storage whose
/// configuration state holds `voters`, from `Config::new(id)` with the given
/// ticks and flags: the node's role and whether it reports ready work, or the
/// construction error's message.
pub uninterp spec fn raft_node_outcome(
    id: u64,
    heartbeat_tick: usize,
    election_tick: usize,
    check_quorum: bool,
    pre_vote: bool,
    voters: Seq<u64>,
) -> Result<(RaftRole, bool), Seq<char>>;

/// Constructs a raft-rs node over in-memory storage whose configuration state
/// holds the given voters, and reports its role and readiness without driving it.
///
/// Trusted: `raft::storage::MemStorage::new_with_conf_state`,
/// `raft::RawNode::with_default_logger`, `RawNode::status` and
/// `RawNode::has_ready`. The contract claims that what comes back is the outcome
/// named `raft_node_outcome` of the arguments, and that a constructed node is a
/// follower, as the raft-rs 0.7.0 source of `Raft::new` shows (it ends with
/// `become_follower`).
#[verifier::external_body]
fn raft_bootstrap_probe(
    id: u64,
    heartbeat_tick: usize,
    election_tick: usize,
    check_quorum: bool,
    pre_vote: bool,
    voters: &Vec<u64>,
) -> (res: Result<(RaftRole, bool), String>)
    requires
        id != 0,
        election_tick <= usize::MAX / 2,
        strictly_ascending(voters@),
    ensures
        match res {
            Ok((role, ready)) => raft_node_outcome(
                id,
                heartbeat_tick,
                election_tick,
                check_quorum,
                pre_vote,
                voters@,
            ) == Ok::<(RaftRole, bool), Seq<char>>((role, ready)) && role == RaftRole::Follower,
            Err(e) => raft_node_outcome(id, heartbeat_tick, election_tick, check_quorum, pre_vote, voters@)
                == Err::<(RaftRole, bool), Seq<char>>(e@),
        },
{
    let mut config = raft::Config::new(id);
    config.heartbeat_tick = heartbeat_tick;
    config.election_tick = election_tick;
    config.check_quorum = check_quorum;
    config.pre_vote = pre_vote;
    let storage = raft::storage::MemStorage::new_with_conf_state((voters.clone(), Vec::new()));
    let node = raft::RawNode::with_default_logger(&config, storage).map_err(|e| e.to_string())?;
    let role = match node.status().ss.raft_state {
        raft::StateRole::Follower => RaftRole::Follower,
        raft::StateRole::Candidate => RaftRole::Candidate,
        raft::StateRole::Leader => RaftRole::Leader,
        raft::StateRole::PreCandidate => RaftRole::PreCandidate,
    };
    Ok((role, node.has_ready()))
}

/// The voter ids of a configuration without collisions, ascending: this node's
/// raft id and those of all peers.
pub open spec fn ascending_voters(config: ClusterConfig, local_id: u64) -> Seq<u64> {
    choose|v: Seq<u64>|
        strictly_ascending(v) && forall|x: u64| v.contains(x) <==> is_voter(config, local_id, x)
}

/// Two strictly ascending sequences with the same elements are equal.
proof fn lemma_ascending_unique(a: Seq<u64>, b: Seq<u64>)
    requires
        strictly_ascending(a),
        strictly_ascending(b),
        forall|x: u64| a.contains(x) <==> b.contains(x),
    ensures
        a == b,
    decreases a.len(),
{
    if a.len() == 0 {
        if b.len() > 0 {
            assert(b.contains(b[0]));
        }
        assert(a =~= b);
    } else {
        assert(a.contains(a[0]));
        assert(b.contains(b[0]));
        let i = choose|i: int| 0 <= i < b.len() && b[i] == a[0];
        let j = choose|j: int| 0 <= j < a.len() && a[j] == b[0];
        if i > 0 {
            assert(b[0] < b[i]);
        }
        if j > 0 {
            assert(a[0] < a[j]);
        }
        assert(a[0] == b[0]);
        let ra = a.drop_first();
        let rb = b.drop_first();
        assert forall|x: u64| ra.contains(x) <==> rb.contains(x) by {
            if ra.contains(x) {
                let k = choose|k: int| 0 <= k < ra.len() && ra[k] == x;
                assert(a[k + 1] == x);
                assert(a.contains(x));
                let t = choose|t: int| 0 <= t < b.len() && b[t] == x;
                assert(a[0] < a[k + 1]);
                if t == 0 {
                    assert(false);
                }
                assert(rb[t - 1] == x);
            }
            if rb.contains(x) {
                let k = choose|k: int| 0 <= k < rb.len() && rb[k] == x;
                assert(b[k + 1] == x);
                assert(b.contains(x));
                let t = choose|t: int| 0 <= t < a.len() && a[t] == x;
                assert(b[0] < b[k + 1]);
                if t == 0 {
                    assert(false);
                }
                assert(ra[t - 1] == x);
            }
        }
        lemma_ascending_unique(ra, rb);
        assert forall|k: int| 0 <= k < a.len() implies a[k] == b[k] by {
            if k > 0 {
                assert(a[k] == ra[k - 1]);
                assert(b[k] == rb[k - 1]);
            }
        }
        assert(a =~= b);
    }
}

/// Bootstrap status of a node from the outcome of constructing it: its role
/// and readiness on success, or the construction error prefixed with
/// `raft-rs RawNode bootstrap failed: `.
pub fn bootstrap_status_from_probe(
    config: &ClusterConfig,
    raft_node_id: u64,
    voters: Vec<u64>,
    probe: Result<(RaftRole, bool), String>,
) -> (res: Result<RaftRsBootstrapStatus, String>)
    ensures
        match probe {
            Ok((role, ready)) => res matches Ok(status) && status.node_id@ == config.node_id@
                && status.raft_node_id == raft_node_id && status.voter_ids@ == voters@
                && status.initial_role@ == role_name(role) && status.has_ready == ready,
            Err(e) => res matches Err(msg) && msg@ == "raft-rs RawNode bootstrap failed: "@ + e@,
        },
{
    match probe {
        Ok((role, has_ready)) => {
            let initial_role = String::from_str(raft_role_name(role));
            Ok(
                RaftRsBootstrapStatus {
                    node_id: config.node_id.clone(),
                    raft_node_id,
                    voter_ids: voters,
                    initial_role,
                    has_ready,
                },
            )
        },
        Err(error) => {
            let mut msg = String::from_str("raft-rs RawNode bootstrap failed: ");
            msg.append(error.as_str());
            Err(msg)
        },
    }
}

/// Validates that the cluster configuration can construct a raft-rs node.
///
/// A raft id collision between peers is reported as an error. Otherwise the
/// node is built from this node's raft id, the bootstrap ticks, quorum checks
/// and pre-vote, over the ascending voter ids; the status reports it, or the
/// construction error is returned.
pub fn validate_raft_rs_bootstrap(config: &ClusterConfig) -> (res: Result<RaftRsBootstrapStatus, String>)
    ensures
        (exists|i: int| first_collision(*config, raft_id(config.node_id@), i)) ==> (res matches Err(
            msg,
        ) && exists|i: int|
            first_collision(*config, raft_id(config.node_id@), i) && msg@ == collision_message(
                config.peers@[i].node_id@,
            )),
        !(exists|i: int| first_collision(*config, raft_id(config.node_id@), i)) ==> match raft_node_outcome(
            raft_id(config.node_id@),
            BOOTSTRAP_HEARTBEAT_TICK,
            BOOTSTRAP_ELECTION_TICK,
            true,
            true,
            ascending_voters(*config, raft_id(config.node_id@)),
        ) {
            Ok((role, ready)) => res matches Ok(status) && status.node_id@ == config.node_id@
                && status.raft_node_id == raft_id(config.node_id@) && status.voter_ids@
                == ascending_voters(*config, raft_id(config.node_id@)) && status.initial_role@
                == role_name(role) && status.has_ready == ready,
            Err(e) => res matches Err(msg) && msg@ == "raft-rs RawNode bootstrap failed: "@ + e,
        },
        res matches Ok(status) ==> status.initial_role@ == "follower"@,
{
    let raft_node_id = raft_numeric_id(config.node_id.as_str());
    let voters = match voter_ids(config, raft_node_id) {
        Ok(v) => v,
        Err(msg) => {
            return Err(msg);
        },
    };
    proof {
        assert(!exists|i: int| first_collision(*config, raft_node_id, i));
        let w = ascending_voters(*config, raft_node_id);
        assert(strictly_ascending(w) && forall|x: u64| w.contains(x) <==> is_voter(*config, raft_node_id, x)) by {
            assert(exists|v: Seq<u64>|
                strictly_ascending(v) && forall|x: u64| v.contains(x) <==> is_voter(*config, raft_node_id, x));
        }
        lemma_ascending_unique(voters@, w);
    }
    if let Err(error) = raft_config_check(
        raft_node_id,
        BOOTSTRAP_HEARTBEAT_TICK,
        BOOTSTRAP_ELECTION_TICK,
        true,
        true,
    ) {
        let mut msg = String::from_str("raft-rs config invalid: ");
        msg.append(error.as_str());
        return Err(msg);
    }
    let probe = raft_bootstrap_probe(
        raft_node_id,
        BOOTSTRAP_HEARTBEAT_TICK,
        BOOTSTRAP_ELECTION_TICK,
        true,
        true,
        &voters,
    );
    bootstrap_status_from_probe(config, raft_node_id, voters, probe)
}

} // verus!
