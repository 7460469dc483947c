use tikeo::raft_bootstrap::{
    bootstrap_status_from_probe, raft_numeric_id, raft_role_name, validate_raft_rs_bootstrap, voter_ids, ClusterConfig,
    ClusterModeConfig, ClusterPeerConfig, RaftRole,
};

fn peer(node_id: &str, endpoint: &str) -> ClusterPeerConfig {
    ClusterPeerConfig {
        node_id: node_id.to_owned(),
        endpoint: endpoint.to_owned(),
    }
}

#[test]
fn raft_numeric_id_is_stable_non_zero() {
    let first = raft_numeric_id("scheduler-0");
    let second = raft_numeric_id("scheduler-0");

    assert_ne!(first, 0);
    assert_eq!(first, second);
}

#[test]
fn raft_rs_bootstrap_constructs_raw_node_without_leadership() {
    let config = ClusterConfig {
        mode: ClusterModeConfig::Raft,
        node_id: "scheduler-0".to_owned(),
        peers: vec![
            peer("scheduler-0", "http://scheduler-0.scheduler-headless:9999"),
            peer("scheduler-1", "http://scheduler-1.scheduler-headless:9999"),
        ],
    };

    let status = validate_raft_rs_bootstrap(&config)
        .unwrap_or_else(|error| panic!("raft-rs bootstrap should validate: {error}"));

    assert_eq!(status.node_id, "scheduler-0");
    assert_eq!(status.voter_ids.len(), 2);
    assert_eq!(status.initial_role, "follower");
}

#[test]
fn raft_numeric_id_reads_first_eight_digest_bytes_big_endian() {
    // SHA-256("") starts with e3 b0 c4 42 98 fc 1c 14.
    assert_eq!(raft_numeric_id(""), 0xe3b0_c442_98fc_1c14);
    // SHA-256("abc") starts with ba 78 16 bf 8f 01 cf ea.
    assert_eq!(raft_numeric_id("abc"), 0xba78_16bf_8f01_cfea);
}

#[test]
fn raft_numeric_id_differs_between_nodes() {
    assert_ne!(raft_numeric_id("scheduler-0"), raft_numeric_id("scheduler-1"));
}

#[test]
fn voter_ids_are_ascending_and_include_local_node() {
    let config = ClusterConfig {
        mode: ClusterModeConfig::Raft,
        node_id: "scheduler-0".to_owned(),
        peers: vec![
            peer("scheduler-1", "http://scheduler-1:9999"),
            peer("scheduler-2", "http://scheduler-2:9999"),
        ],
    };
    let local = raft_numeric_id("scheduler-0");
    let voters = voter_ids(&config, local).expect("no collision");
    assert_eq!(voters.len(), 3);
    assert!(voters.windows(2).all(|w| w[0] < w[1]));
    assert!(voters.contains(&local));
    assert!(voters.contains(&raft_numeric_id("scheduler-1")));
    assert!(voters.contains(&raft_numeric_id("scheduler-2")));
}

#[test]
fn voter_ids_report_duplicate_peer_as_collision() {
    let config = ClusterConfig {
        mode: ClusterModeConfig::Raft,
        node_id: "scheduler-0".to_owned(),
        peers: vec![
            peer("scheduler-1", "http://scheduler-1:9999"),
            peer("scheduler-1", "http://scheduler-1-again:9999"),
        ],
    };
    let local = raft_numeric_id("scheduler-0");
    let error = voter_ids(&config, local).expect_err("duplicate peer collides");
    assert_eq!(
        error,
        "raft-rs numeric node id collision for configured peer scheduler-1"
    );
    let bootstrap = validate_raft_rs_bootstrap(&config).expect_err("collision is refused");
    assert_eq!(bootstrap, error);
}

#[test]
fn bootstrap_of_single_node_cluster_is_a_follower() {
    let config = ClusterConfig {
        mode: ClusterModeConfig::Raft,
        node_id: "solo".to_owned(),
        peers: Vec::new(),
    };
    let status = validate_raft_rs_bootstrap(&config).expect("single node bootstraps");
    assert_eq!(status.node_id, "solo");
    assert_eq!(status.raft_node_id, raft_numeric_id("solo"));
    assert_eq!(status.voter_ids, vec![raft_numeric_id("solo")]);
    assert_eq!(status.initial_role, "follower");
}

#[test]
fn raft_role_names() {
    assert_eq!(raft_role_name(RaftRole::Follower), "follower");
    assert_eq!(raft_role_name(RaftRole::Candidate), "candidate");
    assert_eq!(raft_role_name(RaftRole::Leader), "leader");
    assert_eq!(raft_role_name(RaftRole::PreCandidate), "pre_candidate");
}

#[test]
fn bootstrap_status_reports_probe_outcome() {
    let config = ClusterConfig {
        mode: ClusterModeConfig::Raft,
        node_id: "scheduler-0".to_owned(),
        peers: Vec::new(),
    };
    let status = bootstrap_status_from_probe(&config, 7, vec![3, 7], Ok((RaftRole::Candidate, true)))
        .expect("probe succeeded");
    assert_eq!(status.node_id, "scheduler-0");
    assert_eq!(status.raft_node_id, 7);
    assert_eq!(status.voter_ids, vec![3, 7]);
    assert_eq!(status.initial_role, "candidate");
    assert!(status.has_ready);
    let error = bootstrap_status_from_probe(&config, 7, vec![7], Err("boom".to_owned()))
        .expect_err("probe failed");
    assert_eq!(error, "raft-rs RawNode bootstrap failed: boom");
}
