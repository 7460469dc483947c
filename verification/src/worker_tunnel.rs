//! Worker tunnel decisions: how the server answers each worker message, which
//! status a task result records, and how a broadcast parent instance settles
//! once its per-worker attempts finish.
use vstd::prelude::*;

verus! {

/// Lease granted to a worker when it registers, in seconds.
pub const DEFAULT_LEASE_SECONDS: u64 = 30;

/// Status of a job instance or of one per-worker attempt.
#[derive(Clone, Copy, PartialEq, Eq, Structural, Debug)]
pub enum InstanceStatus {
    /// Dispatch has not completed.
    Pending,
    /// A worker accepted the work.
    Running,
    /// Finished successfully.
    Succeeded,
    /// Finished with a failure.
    Failed,
    /// A broadcast finished with at least one failed attempt.
    PartialFailed,
}

impl InstanceStatus {
    /// Stable lower-case name of the status.
    pub fn as_str(&self) -> (name: &'static str)
        ensures
            name@ == status_name(*self),
    {
        match self {
            InstanceStatus::Pending => "pending",
            InstanceStatus::Running => "running",
            InstanceStatus::Succeeded => "succeeded",
            InstanceStatus::Failed => "failed",
            InstanceStatus::PartialFailed => "partial_failed",
        }
    }
}

/// Stable lower-case name of a status.
pub open spec fn status_name(s: InstanceStatus) -> Seq<char> {
    match s {
        InstanceStatus::Pending => "pending"@,
        InstanceStatus::Running => "running"@,
        InstanceStatus::Succeeded => "succeeded"@,
        InstanceStatus::Failed => "failed"@,
        InstanceStatus::PartialFailed => "partial_failed"@,
    }
}

/// A status after which an instance no longer changes.
pub open spec fn is_terminal(s: InstanceStatus) -> bool {
    s == InstanceStatus::Succeeded || s == InstanceStatus::Failed || s == InstanceStatus::PartialFailed
}

/// Kind of a message a worker sends through its tunnel.
#[derive(Clone, Copy, PartialEq, Eq, Structural, Debug)]
pub enum WorkerMessageKind {
    /// The worker registers its identity and capabilities.
    Register,
    /// The worker renews its lease; the heartbeat carries a sequence number.
    Heartbeat {
        /// Heartbeat sequence number.
        sequence: u64,
    },
    /// The worker reports the outcome of a task.
    TaskResult,
    /// The worker streams a task log line.
    TaskLog,
}

/// What the server sends back for a worker message.
#[derive(Clone, Copy, PartialEq, Eq, Structural, Debug)]
pub enum TunnelReply {
    /// Acknowledge a registration with the assigned worker id and this lease.
    Registered {
        /// Granted lease, in seconds.
        lease_seconds: u64,
    },
    /// Answer a heartbeat with a ping carrying the same sequence number.
    Ping {
        /// Sequence number of the heartbeat answered.
        sequence: u64,
    },
    /// Nothing is sent back.
    Silent,
    /// Reject the message as an invalid argument.
    InvalidArgument,
}

/// Message sent with a rejection of a message without a kind.
pub const MISSING_KIND_MESSAGE: &'static str = "worker message kind is required";

/// Reply for a worker message of the given kind; a message without a kind is rejected.
pub open spec fn reply_for(kind: Option<WorkerMessageKind>) -> TunnelReply {
    match kind {
        Some(WorkerMessageKind::Register) => TunnelReply::Registered { lease_seconds: DEFAULT_LEASE_SECONDS },
        Some(WorkerMessageKind::Heartbeat { sequence }) => TunnelReply::Ping { sequence },
        Some(WorkerMessageKind::TaskResult) => TunnelReply::Silent,
        Some(WorkerMessageKind::TaskLog) => TunnelReply::Silent,
        None => TunnelReply::InvalidArgument,
    }
}

/// Decides how the server answers a worker message.
pub fn worker_message_reply(kind: Option<WorkerMessageKind>) -> (reply: TunnelReply)
    ensures
        reply == reply_for(kind),
{
    match kind {
        Some(WorkerMessageKind::Register) => TunnelReply::Registered {
            lease_seconds: DEFAULT_LEASE_SECONDS,
        },
        Some(WorkerMessageKind::Heartbeat { sequence }) => TunnelReply::Ping { sequence },
        Some(WorkerMessageKind::TaskResult) => TunnelReply::Silent,
        Some(WorkerMessageKind::TaskLog) => TunnelReply::Silent,
        None => TunnelReply::InvalidArgument,
    }
}

/// Status recorded for a task result.
pub fn task_result_status(success: bool) -> (status: InstanceStatus)
    ensures
        status == (if success {
            InstanceStatus::Succeeded
        } else {
            InstanceStatus::Failed
        }),
{
    if success {
        InstanceStatus::Succeeded
    } else {
        InstanceStatus::Failed
    }
}

/// Note attached to a workflow node completed from a worker's task result.
pub open spec fn task_result_note_text(worker_id: Seq<char>, success: bool) -> Seq<char> {
    "worker "@ + worker_id + " reported task success="@ + (if success {
        "true"@
    } else {
        "false"@
    })
}

/// "`worker {worker_id} reported task success={success}`".
pub fn task_result_note(worker_id: &str, success: bool) -> (note: String)
    ensures
        note@ == task_result_note_text(worker_id@, success),
{
    let mut note = String::from_str("worker ");
    note.append(worker_id);
    note.append(" reported task success=");
    note.append(if success { "true" } else { "false" });
    note
}

/// What became of recording a task result against a per-worker attempt.
#[derive(Clone, Copy, PartialEq, Eq, Structural, Debug)]
pub enum AttemptRecord {
    /// The instance is a broadcast parent and the worker's attempt was updated.
    Recorded,
    /// The instance has no attempt for this worker: it runs on a single worker.
    NoAttempt,
    /// Storage refused the update.
    StorageFailed,
}

/// Work that follows a task result once its attempt record is known.
#[derive(Debug)]
pub enum TaskResultFollowUp {
    /// Settle the broadcast parent from all of its attempts.
    RefreshBroadcastParent,
    /// Record `status` on the single instance and advance its workflow node with `note`.
    CompleteInstance {
        /// Status recorded on the instance.
        status: InstanceStatus,
        /// Note attached to the workflow node.
        note: String,
    },
    /// Nothing follows.
    Nothing,
}

/// Decides what follows a worker's task result, given what became of recording
/// it against a per-worker attempt.
pub fn task_result_follow_up(worker_id: &str, success: bool, record: AttemptRecord) -> (res:
    TaskResultFollowUp)
    ensures
        match record {
            AttemptRecord::Recorded => res is RefreshBroadcastParent,
            AttemptRecord::NoAttempt => res matches TaskResultFollowUp::CompleteInstance { status, note }
                && status == (if success {
                InstanceStatus::Succeeded
            } else {
                InstanceStatus::Failed
            }) && note@ == task_result_note_text(worker_id@, success),
            AttemptRecord::StorageFailed => res is Nothing,
        },
{
    match record {
        AttemptRecord::Recorded => TaskResultFollowUp::RefreshBroadcastParent,
        AttemptRecord::NoAttempt => TaskResultFollowUp::CompleteInstance {
            status: task_result_status(success),
            note: task_result_note(worker_id, success),
        },
        AttemptRecord::StorageFailed => TaskResultFollowUp::Nothing,
    }
}

/// Every attempt has finished, successfully or not.
pub open spec fn all_attempts_done(children: Seq<InstanceStatus>) -> bool {
    forall|i: int| 0 <= i < children.len() ==> #[trigger] children[i] == InstanceStatus::Succeeded
        || children[i] == InstanceStatus::Failed
}

/// Every attempt succeeded.
pub open spec fn all_attempts_succeeded(children: Seq<InstanceStatus>) -> bool {
    forall|i: int| 0 <= i < children.len() ==> #[trigger] children[i] == InstanceStatus::Succeeded
}

/// Status a broadcast parent settles to, if any: none while it has no attempts
/// or some attempt is unfinished; `succeeded` when all attempts succeeded;
/// `partial_failed` otherwise.
pub open spec fn parent_status(children: Seq<InstanceStatus>) -> Option<InstanceStatus> {
    if children.len() == 0 || !all_attempts_done(children) {
        None
    } else if all_attempts_succeeded(children) {
        Some(InstanceStatus::Succeeded)
    } else {
        Some(InstanceStatus::PartialFailed)
    }
}

/// Status a broadcast parent instance takes from its per-worker attempts.
pub fn broadcast_parent_status(children: &Vec<InstanceStatus>) -> (res: Option<InstanceStatus>)
    ensures
        res == parent_status(children@),
{
    if children.len() == 0 {
        return None;
    }
    let mut all_done = true;
    let mut all_succeeded = true;
    let mut i: usize = 0;
    while i < children.len()
        invariant
            i <= children.len(),
            all_done == all_attempts_done(children@.take(i as int)),
            all_succeeded == all_attempts_succeeded(children@.take(i as int)),
        decreases children.len() - i,
    {
        let s = children[i];
        let ghost pre = children@.take(i + 1);
        if s != InstanceStatus::Succeeded && s != InstanceStatus::Failed {
            all_done = false;
        }
        if s != InstanceStatus::Succeeded {
            all_succeeded = false;
        }
        proof {
            if !all_done {
                if !all_attempts_done(children@.take(i as int)) {
                    let k = choose|k: int| 0 <= k < i && !(#[trigger] children@.take(i as int)[k]
                        == InstanceStatus::Succeeded || children@.take(i as int)[k] == InstanceStatus::Failed);
                    assert(pre[k] == children@.take(i as int)[k]);
                } else {
                    assert(pre[i as int] == s);
                }
            }
            if !all_succeeded {
                if !all_attempts_succeeded(children@.take(i as int)) {
                    let k = choose|k: int| 0 <= k < i && !(#[trigger] children@.take(i as int)[k]
                        == InstanceStatus::Succeeded);
                    assert(pre[k] == children@.take(i as int)[k]);
                } else {
                    assert(pre[i as int] == s);
                }
            }
        }
        i = i + 1;
    }
    assert(children@.take(children.len() as int) =~= children@);
    if !all_done {
        return None;
    }
    if all_succeeded {
        Some(InstanceStatus::Succeeded)
    } else {
        Some(InstanceStatus::PartialFailed)
    }
}

/// A broadcast parent that settles takes a terminal status, and it succeeds
/// exactly when every attempt succeeded.
pub proof fn lemma_parent_status_terminal(children: Seq<InstanceStatus>)
    ensures
        parent_status(children) matches Some(s) ==> is_terminal(s),
        parent_status(children) == Some(InstanceStatus::Succeeded) <==> (children.len() > 0
            && all_attempts_succeeded(children)),
{
}

/// One failed attempt among finished attempts makes the broadcast parent
/// `partial_failed`.
pub proof fn lemma_one_failure_partial(children: Seq<InstanceStatus>, k: int)
    requires
        all_attempts_done(children),
        0 <= k < children.len(),
        children[k] == InstanceStatus::Failed,
    ensures
        parent_status(children) == Some(InstanceStatus::PartialFailed),
{
}

/// A broadcast parent settles exactly when it has attempts and every one of
/// them has succeeded or failed: while any attempt is pending, running or in
/// any other state it stays unsettled. Once settled it is `succeeded` when no
/// attempt failed and `partial_failed` when some attempt failed.
pub proof fn lemma_parent_settles_only_when_finished(children: Seq<InstanceStatus>)
    ensures
        parent_status(children) is Some <==> (children.len() > 0 && forall|i: int|
            0 <= i < children.len() ==> #[trigger] children[i] == InstanceStatus::Succeeded
                || children[i] == InstanceStatus::Failed),
        (exists|i: int|
            0 <= i < children.len() && (#[trigger] children[i] == InstanceStatus::Pending
                || children[i] == InstanceStatus::Running || children[i]
                == InstanceStatus::PartialFailed)) ==> parent_status(children) is None,
        parent_status(children) == Some(InstanceStatus::PartialFailed) <==> (parent_status(
            children,
        ) is Some && exists|i: int|
            0 <= i < children.len() && #[trigger] children[i] == InstanceStatus::Failed),
        parent_status(children) == Some(InstanceStatus::Succeeded) <==> (parent_status(children) is Some
            && forall|i: int| 0 <= i < children.len() ==> #[trigger] children[i] != InstanceStatus::Failed),
{
    if parent_status(children) is Some {
        if !all_attempts_succeeded(children) {
            let k = choose|k: int| 0 <= k < children.len() && !(#[trigger] children[k] == InstanceStatus::Succeeded);
            assert(children[k] == InstanceStatus::Failed);
        }
    }
    if exists|i: int|
        0 <= i < children.len() && (#[trigger] children[i] == InstanceStatus::Pending
            || children[i] == InstanceStatus::Running || children[i] == InstanceStatus::PartialFailed) {
        let k = choose|i: int|
            0 <= i < children.len() && (#[trigger] children[i] == InstanceStatus::Pending
                || children[i] == InstanceStatus::Running || children[i] == InstanceStatus::PartialFailed);
        assert(!(children[k] == InstanceStatus::Succeeded || children[k] == InstanceStatus::Failed));
    }
}

/// How each worker message is answered: a registration gets a thirty-second
/// lease, a heartbeat a ping echoing its sequence number, task results and logs
/// nothing, and a message without a kind is rejected as an invalid argument.
pub proof fn lemma_reply_per_kind(kind: Option<WorkerMessageKind>)
    ensures
        kind == Some(WorkerMessageKind::Register) ==> reply_for(kind) == (TunnelReply::Registered {
            lease_seconds: 30,
        }),
        kind matches Some(WorkerMessageKind::Heartbeat { sequence }) ==> reply_for(kind) == (
        TunnelReply::Ping { sequence }),
        kind == Some(WorkerMessageKind::TaskResult) || kind == Some(WorkerMessageKind::TaskLog)
            ==> reply_for(kind) == TunnelReply::Silent,
        kind is None ==> reply_for(kind) == TunnelReply::InvalidArgument,
{
}

/// Worker tunnel service: the worker registry and the repositories that
/// persist what workers report.
pub struct WorkerTunnel<Registry, Instances, Logs, Attempts, Workflows> {
    registry: Registry,
    instances: Instances,
    logs: Logs,
    attempts: Attempts,
    workflows: Workflows,
}

impl<Registry, Instances, Logs, Attempts, Workflows> WorkerTunnel<
    Registry,
    Instances,
    Logs,
    Attempts,
    Workflows,
> {
    /// Creates a worker tunnel service from its registry and repositories.
    pub fn new(
        registry: Registry,
        instances: Instances,
        logs: Logs,
        attempts: Attempts,
        workflows: Workflows,
    ) -> (tunnel: Self)
        ensures
            tunnel.registry() == registry,
            tunnel.instances() == instances,
            tunnel.logs() == logs,
            tunnel.attempts() == attempts,
            tunnel.workflows() == workflows,
    {
        WorkerTunnel { registry, instances, logs, attempts, workflows }
    }

    /// The worker registry.
    pub closed spec fn registry(&self) -> Registry {
        self.registry
    }

    /// The job instance repository.
    pub closed spec fn instances(&self) -> Instances {
        self.instances
    }

    /// The task log repository.
    pub closed spec fn logs(&self) -> Logs {
        self.logs
    }

    /// The per-worker attempt repository.
    pub closed spec fn attempts(&self) -> Attempts {
        self.attempts
    }

    /// The workflow repository.
    pub closed spec fn workflows(&self) -> Workflows {
        self.workflows
    }
}

} // verus!
