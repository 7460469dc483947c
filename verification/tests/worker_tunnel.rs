use tikeo::worker_tunnel::{
    broadcast_parent_status, task_result_follow_up, AttemptRecord, TaskResultFollowUp, task_result_note, task_result_status, worker_message_reply,
    InstanceStatus, TunnelReply, WorkerMessageKind, WorkerTunnel, DEFAULT_LEASE_SECONDS,
    MISSING_KIND_MESSAGE,
};

#[test]
fn worker_messages_are_answered_by_kind() {
    assert_eq!(
        worker_message_reply(Some(WorkerMessageKind::Register)),
        TunnelReply::Registered { lease_seconds: 30 }
    );
    assert_eq!(DEFAULT_LEASE_SECONDS, 30);
    assert_eq!(
        worker_message_reply(Some(WorkerMessageKind::Heartbeat { sequence: 41 })),
        TunnelReply::Ping { sequence: 41 }
    );
    assert_eq!(worker_message_reply(Some(WorkerMessageKind::TaskResult)), TunnelReply::Silent);
    assert_eq!(worker_message_reply(Some(WorkerMessageKind::TaskLog)), TunnelReply::Silent);
    assert_eq!(worker_message_reply(None), TunnelReply::InvalidArgument);
    assert_eq!(MISSING_KIND_MESSAGE, "worker message kind is required");
}

#[test]
fn task_results_record_status_and_note() {
    assert_eq!(task_result_status(true), InstanceStatus::Succeeded);
    assert_eq!(task_result_status(false), InstanceStatus::Failed);
    assert_eq!(task_result_note("wrk-1", true), "worker wrk-1 reported task success=true");
    assert_eq!(task_result_note("wrk-2", false), "worker wrk-2 reported task success=false");
}

#[test]
fn status_names() {
    assert_eq!(InstanceStatus::Pending.as_str(), "pending");
    assert_eq!(InstanceStatus::Running.as_str(), "running");
    assert_eq!(InstanceStatus::Succeeded.as_str(), "succeeded");
    assert_eq!(InstanceStatus::Failed.as_str(), "failed");
    assert_eq!(InstanceStatus::PartialFailed.as_str(), "partial_failed");
}

#[test]
fn broadcast_parent_settles_when_all_attempts_finish() {
    let (failed, partial, running, succeeded) = (
        InstanceStatus::Failed,
        InstanceStatus::PartialFailed,
        InstanceStatus::Running,
        InstanceStatus::Succeeded,
    );
    assert_eq!(broadcast_parent_status(&Vec::new()), None);
    assert_eq!(broadcast_parent_status(&vec![succeeded, running]), None);
    assert_eq!(broadcast_parent_status(&vec![succeeded, succeeded]), Some(succeeded));
    assert_eq!(broadcast_parent_status(&vec![succeeded, failed]), Some(partial));
    assert_eq!(broadcast_parent_status(&vec![failed]), Some(partial));
    assert_eq!(broadcast_parent_status(&vec![failed, running]), None);
}

#[test]
fn worker_tunnel_holds_its_parts() {
    let tunnel = WorkerTunnel::new(1u8, 2u16, 3u32, 4u64, "workflows");
    let _ = tunnel;
}

#[test]
fn task_result_follow_up_by_attempt_record() {
    assert!(matches!(
        task_result_follow_up("wrk-1", true, AttemptRecord::Recorded),
        TaskResultFollowUp::RefreshBroadcastParent
    ));
    assert!(matches!(
        task_result_follow_up("wrk-1", false, AttemptRecord::StorageFailed),
        TaskResultFollowUp::Nothing
    ));
    match task_result_follow_up("wrk-1", false, AttemptRecord::NoAttempt) {
        TaskResultFollowUp::CompleteInstance { status, note } => {
            assert_eq!(status, InstanceStatus::Failed);
            assert_eq!(note, "worker wrk-1 reported task success=false");
        }
        other => panic!("unexpected follow-up: {other:?}"),
    }
}
