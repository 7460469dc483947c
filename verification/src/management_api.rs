//! Request and response models of the management API.
use std::collections::BTreeMap;
use vstd::prelude::*;
use crate::workflow::model::WorkflowValidationResult;

verus! {

/// Empty response payload for operations that intentionally return no data.
#[derive(Debug)]
pub struct EmptyData {}

/// DTO for creating a new user via API.
#[derive(Debug)]
pub struct CreateUserRequest {
    /// Unique username.
    pub username: String,
    /// Plaintext password.
    pub password: String,
    /// User role (e.g. "admin", "operator", "viewer").
    pub role: String,
}

/// DTO for updating a user via API.
#[derive(Debug)]
pub struct UpdateUserRequest {
    /// Optional plaintext password update.
    pub password: Option<String>,
    /// Optional role update.
    pub role: Option<String>,
}

/// Generic page response.
#[derive(Debug)]
pub struct Page {
    /// Page items.
    pub items: Vec<JobSummary>,
    /// Token for the next page when more data is available.
    pub next_page_token: Option<String>,
}

/// Common list query parameters.
#[derive(Debug, Default)]
pub struct PageQuery {
    /// Maximum number of items to return.
    pub page_size: Option<u32>,
    /// Opaque page token returned by a previous list call.
    pub page_token: Option<String>,
}

/// Alert event summary.
#[derive(Debug)]
pub struct AlertEventSummary {
    pub id: String,
    pub rule_id: String,
    pub rule_name: String,
    pub severity: String,
    pub status: String,
    pub event_type: String,
    pub resource_type: String,
    pub resource_id: String,
    pub failure_class: Option<String>,
    pub message: Option<String>,
    pub dedupe_key: String,
    pub created_at: String,
}

/// Alert rule delivery readiness with channel targets redacted.
#[derive(Debug)]
pub struct AlertDeliveryStatusResponse {
    pub rule_id: String,
    pub ready: bool,
    pub channel_count: u64,
    pub channels: Vec<AlertDeliveryChannelStatus>,
    pub issues: Vec<String>,
}

/// Redacted notification channel readiness metadata.
#[derive(Debug)]
pub struct AlertDeliveryChannelStatus {
    pub provider: String,
    pub target_configured: bool,
    pub secret_configured: bool,
    pub enabled: bool,
    pub target_redacted: Option<String>,
    pub transport_security: Option<String>,
    pub issues: Vec<String>,
}

/// Alert notification history summary.
#[derive(Debug)]
pub struct AlertNotificationSummary {
    pub rule_id: String,
    pub rule_name: String,
    pub severity: String,
    pub resource_type: String,
    pub resource_id: String,
    pub failure_class: Option<String>,
    pub latest_status: String,
    pub latest_event_type: String,
    pub latest_message: Option<String>,
    pub event_count: u64,
    pub firing_count: u64,
    pub suppressed_count: u64,
    pub silenced_count: u64,
    pub recovered_count: u64,
    pub first_seen: String,
    pub last_seen: String,
}

/// Worker metrics summary.
#[derive(Debug)]
pub struct MetricsWorkerSummary {
    pub online: u64,
}

/// Job instance metrics summary.
#[derive(Debug)]
pub struct MetricsInstanceSummary {
    pub total: u64,
    pub by_status: BTreeMap<String, u64>,
}

/// Alert event metrics summary.
#[derive(Debug)]
pub struct MetricsAlertSummary {
    pub total_events: u64,
    pub by_status: BTreeMap<String, u64>,
}

/// Script governance metrics summary.
#[derive(Debug)]
pub struct MetricsGovernanceSummary {
    pub script_failure_events: u64,
    pub by_failure_class: BTreeMap<String, u64>,
}

/// Audit log list query parameters.
#[derive(Debug, Default)]
pub struct AuditLogQuery {
    /// Maximum number of items to return.
    pub page_size: Option<u32>,
    /// Opaque page token returned by a previous list call.
    pub page_token: Option<String>,
    /// Filter by actor.
    pub actor: Option<String>,
    /// Filter by action.
    pub action: Option<String>,
    /// Filter by resource type.
    pub resource_type: Option<String>,
    /// Filter by resource id.
    pub resource_id: Option<String>,
    /// Filter by failure reason.
    pub failure_reason: Option<String>,
    /// Export format for governed export endpoint; currently only `json` is supported.
    pub format: Option<String>,
}

/// System information shown by the management API.
#[derive(Debug)]
pub struct SystemInfoResponse {
    /// API service name.
    pub name: &'static str,
    /// Server crate version.
    pub version: &'static str,
    /// Rust package target environment.
    pub target: &'static str,
}

/// Cluster status response.
#[derive(Debug)]
pub struct ClusterResponse {
    /// Cluster operating mode.
    pub mode: String,
    /// Current node role.
    pub role: String,
    /// Stable current node identifier.
    pub node_id: String,
    /// Known server node count.
    pub nodes: u32,
    /// Whether this node may own tikee/dispatcher loops.
    pub can_schedule: bool,
    /// Optional leader fencing token; null until real consensus establishes leadership.
    pub leader_fencing_token: Option<String>,
    /// Human-readable implementation note.
    pub detail: String,
}

/// Operator diagnostics for cluster runtime readiness.
#[derive(Debug)]
pub struct ClusterDiagnosticsResponse {
    /// Current coordinator status.
    pub status: ClusterResponse,
    /// Whether tikee/dispatcher ownership loops are currently gated off.
    pub scheduling_gated: bool,
    /// Local persisted Raft metadata when present.
    pub metadata: Option<RaftMetadataDiagnostic>,
    /// Configured Raft peers/members.
    pub members: Vec<RaftMemberDiagnostic>,
    /// Reserved transport endpoint status.
    pub transport: RaftTransportDiagnostic,
    /// Runtime boundary decision for this phase.
    pub runtime_boundary: String,
}

/// Local Raft metadata diagnostic fields.
#[derive(Debug)]
pub struct RaftMetadataDiagnostic {
    /// Logical cluster identifier.
    pub cluster_id: String,
    /// Stable local node id.
    pub node_id: String,
    /// Last known term.
    pub current_term: i64,
    /// Vote target in current term, when any.
    pub voted_for: Option<String>,
    /// Last committed index.
    pub commit_index: i64,
    /// Last applied index.
    pub applied_index: i64,
    /// Leader fencing token, null until real consensus establishes leadership.
    pub leader_fencing_token: Option<String>,
    /// Base64-encoded raft-rs `ConfState`, null until committed membership apply.
    pub conf_state: Option<String>,
    /// Last update timestamp.
    pub updated_at: String,
}

/// Raft member diagnostic fields.
#[derive(Debug)]
pub struct RaftMemberDiagnostic {
    /// Stable member node id.
    pub node_id: String,
    /// Peer endpoint reachable through container/K8s networking.
    pub endpoint: String,
    /// Member lifecycle status.
    pub status: String,
    /// Last update timestamp.
    pub updated_at: String,
}

/// Reserved Raft transport diagnostic state.
#[derive(Debug)]
pub struct RaftTransportDiagnostic {
    /// Reserved `AppendEntries` endpoint path.
    pub append_entries_path: &'static str,
    /// Whether the transport can submit messages to a local consensus runtime.
    pub mutating: bool,
    /// Human-readable transport status.
    pub status: &'static str,
}

/// Login request for the development admin account.
#[derive(Debug)]
pub struct LoginRequest {
    /// Username.
    pub username: String,
    /// Password.
    pub password: String,
}

/// API token creation request.
#[derive(Debug)]
pub struct CreateApiTokenRequest {
    /// Human-readable token name.
    pub name: String,
    /// Optional scope allow-list in `resource:action` form. Omit for current role permissions.
    pub scopes: Option<Vec<String>>,
    /// Optional namespace/app/worker-pool bindings. Omit or empty for unrestricted scope.
    pub scope_bindings: Option<Vec<AccessScopeBinding>>,
    /// Optional token lifetime in seconds, bounded by server policy.
    pub expires_in_seconds: Option<i64>,
}

/// API token rotation request.
#[derive(Debug)]
pub struct RotateApiTokenRequest {
    /// Optional replacement token name. Defaults to the existing token name.
    pub name: Option<String>,
    /// Optional replacement token lifetime in seconds, bounded by server policy.
    pub expires_in_seconds: Option<i64>,
}

/// API token metadata returned after creation and list operations.
#[derive(Debug)]
pub struct ApiTokenSummary {
    /// Token/session identifier used for revocation.
    pub id: String,
    /// Human-readable token name.
    pub name: String,
    /// Username that owns the token.
    pub username: String,
    /// Optional scope allow-list in `resource:action` form. Empty means current role permissions.
    pub scopes: Vec<String>,
    /// Optional namespace/app/worker-pool bindings. Empty means unrestricted.
    pub scope_bindings: Vec<AccessScopeBinding>,
    /// RFC3339 expiration timestamp.
    pub expires_at: String,
    /// RFC3339 creation timestamp.
    pub created_at: String,
}

/// API token creation response. The raw bearer token is only returned once.
#[derive(Debug)]
pub struct CreatedApiToken {
    /// Token metadata.
    pub token: ApiTokenSummary,
    /// Raw bearer token; store it immediately because it is not persisted in plaintext.
    pub access_token: String,
}

/// Optional API token scope binding for tenant/app/pool-level access.
#[derive(Debug, PartialEq, Eq)]
pub struct AccessScopeBinding {
    /// Namespace name. `None` means any namespace.
    pub namespace: Option<String>,
    /// Application name. `None` means any app.
    pub app: Option<String>,
    /// Worker pool label. `None` means any worker pool.
    pub worker_pool: Option<String>,
}

/// OIDC authorization bootstrap response. Secrets are never included.
#[derive(Debug)]
pub struct OidcAuthorizeResponse {
    pub provider: String,
    pub authorization_url: String,
    pub client_id: String,
    pub scopes: Vec<String>,
    pub state_required: bool,
    pub pkce_required: bool,
}

/// Authentication mode/status metadata for clients.
#[derive(Debug)]
pub struct AuthStatusResponse {
    pub mode: String,
    pub local_login_enabled: bool,
    pub oidc: OidcStatus,
}

/// OIDC status metadata with secrets redacted.
#[derive(Debug)]
pub struct OidcStatus {
    pub enabled: bool,
    pub issuer_url: Option<String>,
    pub client_id: Option<String>,
    pub client_secret_configured: bool,
    pub scopes: Vec<String>,
}

/// Observability exporter status with sensitive values redacted.
#[derive(Debug)]
pub struct ObservabilityStatusResponse {
    pub tracing: TracingStatus,
    pub ready: bool,
    pub issues: Vec<String>,
}

/// OpenTelemetry tracing exporter readiness metadata.
#[derive(Debug)]
pub struct TracingStatus {
    pub enabled: bool,
    pub exporter: String,
    pub endpoint_configured: bool,
    pub header_names: Vec<String>,
}

/// TLS/mTLS transport security status.
#[derive(Debug)]
pub struct TransportSecurityStatusResponse {
    pub http: TlsEndpointStatus,
    pub worker_tunnel: TlsEndpointStatus,
    pub ready: bool,
    pub issues: Vec<String>,
}

/// TLS endpoint readiness metadata with paths redacted.
#[derive(Debug)]
pub struct TlsEndpointStatus {
    pub tls_enabled: bool,
    pub mtls_required: bool,
    pub cert_configured: bool,
    pub key_configured: bool,
    pub ca_configured: bool,
    pub listener_mode: String,
}

/// Workflow dry-run response.
#[derive(Debug)]
pub struct WorkflowDryRunResponse {
    /// DAG validation result.
    pub validation: WorkflowValidationResult,
    /// Nodes without incoming edges.
    pub start_nodes: Vec<String>,
    /// Total node count.
    pub node_count: usize,
    /// Total edge count.
    pub edge_count: usize,
}

/// Online worker summary shown by management UI.
#[derive(Debug)]
pub struct WorkerSummary {
    /// Worker session id.
    pub worker_id: String,
    /// Logical worker key used to group sessions.
    pub logical_instance_id: String,
    /// Optional client-side stable instance hint.
    pub client_instance_id: Option<String>,
    /// Worker app selector.
    pub app: String,
    /// Worker namespace selector.
    pub namespace: String,
    /// Worker cluster.
    pub cluster: String,
    /// Worker region.
    pub region: String,
    /// Runtime capabilities.
    pub capabilities: Vec<String>,
    /// Monotonic generation within the logical worker.
    pub generation: u64,
    /// Session status.
    pub status: String,
    /// Machine-readable status reason.
    pub status_reason: Option<String>,
    /// Replacement session id, if this session was superseded.
    pub replaced_by_worker_id: Option<String>,
    /// Last heartbeat sequence.
    pub last_sequence: u64,
}

/// Online worker list payload.
#[derive(Debug)]
pub struct WorkerListResponse {
    /// Online worker count.
    pub online: usize,
    /// Online workers.
    pub items: Vec<WorkerSummary>,
}

/// Persisted worker session shown in history UI.
#[derive(Debug)]
pub struct WorkerSessionHistorySummary {
    /// Worker session id.
    pub worker_id: String,
    /// Logical worker key used to group sessions.
    pub logical_instance_id: String,
    /// Session generation.
    pub generation: i64,
    /// Session status.
    pub status: String,
    /// Machine-readable status reason.
    pub status_reason: Option<String>,
    /// Evidence string for current status.
    pub status_evidence: Option<String>,
    /// Lease expiry timestamp.
    pub lease_expires_at: String,
    /// Last heartbeat timestamp.
    pub last_heartbeat_at: String,
    /// Last heartbeat sequence.
    pub last_sequence: i64,
    /// Replacement worker id when any.
    pub replaced_by_worker_id: Option<String>,
}

/// Worker lifecycle event shown in history UI.
#[derive(Debug)]
pub struct WorkerSessionEventDto {
    /// Event id.
    pub id: String,
    /// Worker session id.
    pub worker_id: String,
    /// Logical instance id.
    pub logical_instance_id: String,
    /// Event type.
    pub event_type: String,
    /// Reason code when present.
    pub reason: Option<String>,
    /// Optional JSON detail.
    pub detail_json: Option<String>,
    /// Creation timestamp.
    pub created_at: String,
}

/// Worker lifecycle history payload.
#[derive(Debug)]
pub struct WorkerLifecycleHistoryResponse {
    /// Persisted sessions including stopped/replaced/offline history.
    pub sessions: Vec<WorkerSessionHistorySummary>,
    /// Recent lifecycle events across workers.
    pub events: Vec<WorkerSessionEventDto>,
}

/// Transport request shape aligned with raft-rs `eraftpb::Message`.
#[derive(Debug)]
pub struct RaftAppendEntriesRequest {
    /// Sender raft node id as derived by the server node-id mapping.
    pub from: u64,
    /// Target raft node id.
    pub to: u64,
    /// Sender term.
    pub term: i64,
    /// raft-rs message type name, e.g. `MsgAppend`, `MsgHeartbeat`, or `MsgRequestVote`.
    pub message_type: String,
    /// Log index carried by raft-rs message.
    pub index: i64,
    /// Log term carried by raft-rs message.
    pub log_term: i64,
    /// Commit index carried by raft-rs message.
    pub commit: i64,
    /// Candidate snapshot index, when a snapshot message is carried out-of-band.
    pub snapshot_index: Option<i64>,
    /// Candidate snapshot term, when a snapshot message is carried out-of-band.
    pub snapshot_term: Option<i64>,
    /// Entries carried by append messages. Payloads are base64 strings.
    pub entries: Vec<RaftWireEntry>,
    /// Optional base64 message context.
    pub context: Option<String>,
    /// Whether this is a rejection response.
    pub reject: Option<bool>,
    /// Rejection hint index from raft-rs.
    pub reject_hint: Option<i64>,
    /// Optional fencing token carried by a real leader. Ignored until consensus runtime exists.
    pub leader_fencing_token: Option<String>,
}

/// Wire representation of a raft-rs log entry.
#[derive(Debug)]
pub struct RaftWireEntry {
    /// Entry type name, e.g. `EntryNormal` or `EntryConfChange`.
    pub entry_type: String,
    /// Entry log index.
    pub index: i64,
    /// Entry term.
    pub term: i64,
    /// Base64-encoded entry data.
    pub data: String,
    /// Base64-encoded entry context.
    pub context: Option<String>,
}

/// Response for inbound Raft transport message submission.
#[derive(Debug)]
pub struct RaftMessageResult {
    /// Whether the message was accepted by the local raft-rs runtime inbox.
    pub accepted: bool,
    /// Human-readable reason.
    pub reason: String,
    /// Local node id.
    pub local_node_id: String,
    /// Local cluster role.
    pub local_role: String,
    /// Local leader fencing token, null until real consensus establishes leadership.
    pub leader_fencing_token: Option<String>,
    /// Remote address as reported by proxy headers, when present.
    pub remote_addr: Option<String>,
    /// Received sender term.
    pub received_term: i64,
}

/// Request to create an intentionally gated Raft membership proposal.
#[derive(Debug)]
pub struct RaftMembershipProposalRequest {
    /// Client-provided idempotency key.
    pub proposal_id: String,
    /// Membership action: `add_voter` or `remove_voter`.
    pub action: String,
    /// Target tikee node id.
    pub node_id: String,
    /// Target endpoint for `add_voter`.
    pub endpoint: Option<String>,
}

/// Request to run a workflow.
#[derive(Debug)]
pub struct WorkflowRunRequest {
    /// Trigger type. Defaults to `api`.
    pub trigger_type: Option<String>,
}

/// Job summary DTO.
#[derive(Debug)]
pub struct JobSummary {
    /// Latest immutable version number.
    pub version_number: i64,
    /// Job identifier.
    pub id: String,
    /// Namespace name.
    pub namespace: String,
    /// Application name.
    pub app: String,
    /// Display name.
    pub name: String,
    /// Schedule type, for example `api`, `cron`, or `fixed_rate`; `api` means explicit API/SDK/UI trigger, not an HTTP-calling task.
    pub schedule_type: String,
    /// Optional schedule expression.
    pub schedule_expr: Option<String>,
    /// Optional SDK worker processor binding.
    pub processor_name: Option<String>,
    /// Optional managed script binding.
    pub script_id: Option<String>,
    /// Job enabled flag.
    pub enabled: bool,
    /// Optional canary target job id for explicit trigger routing.
    pub canary_job_id: Option<String>,
    /// Canary traffic percentage in 0..=100.
    pub canary_percent: i32,
}

/// Operator-facing scheduling readiness and risk advice for a job.
#[derive(Debug)]
pub struct JobSchedulingAdviceResponse {
    /// Whether at least one currently connected worker can execute this job.
    pub ready: bool,
    /// Advice severity: `ok`, `warning`, or `error`.
    pub severity: String,
    /// Human-readable reason.
    pub reason: String,
    /// Required worker capability inferred from job binding.
    pub required_capability: Option<String>,
    /// Currently eligible worker ids.
    pub eligible_workers: Vec<String>,
    /// Number of recent instances inspected.
    pub recent_instances: u64,
    /// Failed instances in the inspected recent window.
    pub recent_failures: u64,
}

/// Workflow node reference that could not be resolved to a visible job.
#[derive(Debug)]
pub struct JobTopologyUnresolvedRef {
    /// Workflow id containing the unresolved reference.
    pub workflow_id: String,
    /// Workflow name containing the unresolved reference.
    pub workflow_name: String,
    /// Workflow node key containing the unresolved reference.
    pub node_key: String,
    /// Missing job id.
    pub missing_job_id: String,
    /// Human-readable reason.
    pub reason: String,
}

/// Cross-workflow impact analysis for one job.
#[derive(Debug)]
pub struct JobImpactResponse {
    /// Target job being analyzed.
    pub target_job: JobImpactJobRef,
    /// Workflows referencing the target job.
    pub referencing_workflows: Vec<JobImpactWorkflowRef>,
    /// Jobs that can run before the target in any referencing workflow.
    pub upstream_jobs: Vec<JobImpactJobRef>,
    /// Jobs that can run after the target in any referencing workflow.
    pub downstream_jobs: Vec<JobImpactJobRef>,
    /// Risk rollup for operator review.
    pub risk_summary: JobImpactRiskSummary,
}

/// Lightweight job reference used by impact analysis.
#[derive(Debug)]
pub struct JobImpactJobRef {
    /// Job id.
    pub id: String,
    /// Job name.
    pub name: String,
    /// Namespace.
    pub namespace: String,
    /// App.
    pub app: String,
}

/// Lightweight workflow reference used by impact analysis.
#[derive(Debug)]
pub struct JobImpactWorkflowRef {
    /// Workflow id.
    pub id: String,
    /// Workflow name.
    pub name: String,
    /// Workflow node keys that reference the target job.
    pub node_keys: Vec<String>,
}

/// Operator-facing impact risk rollup.
#[derive(Debug)]
pub struct JobImpactRiskSummary {
    /// Number of workflows referencing the target job.
    pub workflow_count: u64,
    /// Number of distinct upstream jobs.
    pub upstream_count: u64,
    /// Number of distinct downstream jobs.
    pub downstream_count: u64,
    /// Number of unresolved topology references observed globally.
    pub unresolved_count: u64,
    /// Coarse risk level: low, medium, or high.
    pub risk_level: String,
    /// Human-readable reasons.
    pub reasons: Vec<String>,
}

/// Create job request.
#[derive(Debug)]
pub struct CreateJobRequest {
    /// Namespace name. Defaults to `default` when omitted.
    pub namespace: Option<String>,
    /// Application name. Defaults to `default` when omitted.
    pub app: Option<String>,
    /// Display name.
    pub name: String,
    /// Schedule type. Defaults to `api` when omitted; `api` means explicit API/SDK/UI trigger.
    pub schedule_type: Option<String>,
    /// Optional schedule expression for CRON/fixed-rate modes.
    pub schedule_expr: Option<String>,
    /// Optional SDK worker processor binding.
    pub processor_name: Option<String>,
    /// Optional managed script binding.
    pub script_id: Option<String>,
    /// Enabled flag. Defaults to `true` when omitted.
    pub enabled: Option<bool>,
    /// Optional canary target job id.
    pub canary_job_id: Option<String>,
    /// Canary traffic percentage in 0..=100.
    pub canary_percent: Option<i32>,
}

/// Update job request. Omitted fields remain unchanged.
#[derive(Debug)]
pub struct UpdateJobRequest {
    /// Optional display name update.
    pub name: Option<String>,
    /// Optional schedule type update. `api` means explicit API/SDK/UI trigger.
    pub schedule_type: Option<String>,
    /// Optional schedule expression update. Use null to clear it.
    pub schedule_expr: Option<Option<String>>,
    /// Optional SDK worker processor binding update. Use null to clear it.
    pub processor_name: Option<Option<String>>,
    /// Optional managed script binding update. Use null to clear it.
    pub script_id: Option<Option<String>>,
    /// Optional enabled flag update.
    pub enabled: Option<bool>,
    /// Optional canary target update. Use null to clear it.
    pub canary_job_id: Option<Option<String>>,
    /// Optional canary traffic percentage update.
    pub canary_percent: Option<i32>,
}

/// Roll back a job to an immutable version request.
#[derive(Debug)]
pub struct RollbackJobRequest {
    /// Historical version number to restore.
    pub version_number: i64,
}

/// Trigger job request.
#[derive(Debug, Default)]
pub struct TriggerJobRequest {
    /// Optional trigger source. Defaults to `api`; `api` means explicit API/SDK/UI trigger.
    pub trigger_type: Option<String>,
    /// Optional execution mode. Defaults to `single`; `broadcast` fans out to all online workers.
    pub execution_mode: Option<String>,
}

/// Inbound webhook event trigger response.
#[derive(Debug)]
pub struct InboundWebhookTriggerResponse {
    /// Whether the event was accepted and a job instance was created.
    pub accepted: bool,
    /// Created job instance id.
    pub instance_id: String,
    /// Target job id.
    pub job_id: String,
    /// Created instance status.
    pub status: String,
    /// Trigger type; always `webhook` for this endpoint.
    pub trigger_type: String,
}

/// Canary routing metadata for explicit job triggers.
#[derive(Debug)]
pub struct CanaryRoutingSummary {
    /// Whether canary routing was configured on the requested job.
    pub enabled: bool,
    /// Whether this trigger was routed to the canary job.
    pub routed: bool,
    /// Requested original job id.
    pub original_job_id: String,
    /// Actual job id used for created instance.
    pub routed_job_id: String,
    /// Canary percentage configured on the requested job.
    pub percent: i32,
}

/// Job instance page response.
#[derive(Debug)]
pub struct JobInstancePage {
    /// Page items.
    pub items: Vec<JobInstanceSummary>,
    /// Token for the next page when more data is available.
    pub next_page_token: Option<String>,
}

/// Job instance summary DTO.
#[derive(Debug)]
pub struct JobInstanceSummary {
    /// Instance identifier.
    pub id: String,
    /// Parent job identifier.
    pub job_id: String,
    /// Current instance status.
    pub status: String,
    /// Trigger source.
    pub trigger_type: String,
    /// Execution mode.
    pub execution_mode: String,
    /// Creation timestamp in RFC3339 format.
    pub created_at: String,
    /// Last update timestamp in RFC3339 format.
    pub updated_at: String,
    /// Number of persisted task log rows for this instance.
    pub log_count: u64,
    /// Latest persisted task log row, when available.
    pub latest_log: Option<JobInstanceLogSummary>,
    /// Best-effort worker id observed from persisted logs for single-mode tasks.
    pub worker_id: Option<String>,
    /// Optional canary routing metadata when explicit trigger passed through canary routing.
    pub canary_routing: Option<CanaryRoutingSummary>,
}

/// Job instance attempt page response.
#[derive(Debug)]
pub struct JobInstanceAttemptPage {
    /// Page items.
    pub items: Vec<JobInstanceAttemptSummary>,
    /// Token for the next page when more data is available.
    pub next_page_token: Option<String>,
}

/// Per-worker job instance attempt summary.
#[derive(Debug)]
pub struct JobInstanceAttemptSummary {
    /// Attempt identifier.
    pub id: String,
    /// Parent instance identifier.
    pub instance_id: String,
    /// Target worker identifier.
    pub worker_id: String,
    /// Current attempt status.
    pub status: String,
    /// Creation timestamp in RFC3339 format.
    pub created_at: String,
    /// Last update timestamp in RFC3339 format.
    pub updated_at: String,
}

/// Job instance log page response.
#[derive(Debug)]
pub struct JobInstanceLogPage {
    /// Page items.
    pub items: Vec<JobInstanceLogSummary>,
    /// Token for the next page when more data is available.
    pub next_page_token: Option<String>,
}

/// Publish or rollback script release pointer request.
#[derive(Debug)]
pub struct ScriptReleaseRequest {
    /// Immutable script version number to release. Defaults to latest version when omitted.
    pub version_number: Option<i64>,
    /// Optional external approval ticket. Rejected until approval verification is implemented.
    pub approval_ticket: Option<String>,
    /// Optional content/signature attestation. Rejected until signature verification is implemented.
    pub signature: Option<String>,
    /// Optional URL/File/Secret grants requested for this release; fail-closed until verified.
    pub grants: Option<ScriptReleaseGrants>,
}

/// URL/File/Secret grants requested for a script release.
#[derive(Debug, Default)]
pub struct ScriptReleaseGrants {
    /// URL hosts or URL policy references approved for this release.
    pub url: Vec<String>,
    /// Read-only file paths or file policy references approved for this release.
    pub file_read: Vec<String>,
    /// Writable file paths or file policy references approved for this release.
    pub file_write: Vec<String>,
    /// Secret references approved for this release.
    pub secret: Vec<String>,
}

/// Query for previewing script release gates.
#[derive(Debug)]
pub struct ScriptReleaseGateQuery {
    /// Immutable script version number to evaluate. Defaults to latest version when omitted.
    pub version_number: Option<i64>,
}

/// Script release gate preview response.
#[derive(Debug)]
pub struct ScriptReleaseGateResponse {
    /// Script identifier.
    pub script_id: String,
    /// Evaluated immutable version number.
    pub version_number: i64,
    /// Evaluated immutable version id.
    pub version_id: String,
    /// Evaluated content SHA-256 digest.
    pub content_sha256: String,
    /// Whether this version can pass current local release gates.
    pub releasable: bool,
    /// Human-readable blocking reasons.
    pub blocking_reasons: Vec<String>,
    /// Operator actions required before release can proceed.
    pub required_actions: Vec<String>,
    /// Whether real signature verification is enabled in this build/config.
    pub signature_verification_enabled: bool,
}

/// Job instance log summary DTO.
#[derive(Debug)]
pub struct JobInstanceLogSummary {
    /// Log identifier.
    pub id: String,
    /// Parent instance identifier.
    pub instance_id: String,
    /// Worker identifier.
    pub worker_id: String,
    /// Log level.
    pub level: String,
    /// Log message.
    pub message: String,
    /// Structured governance event name parsed from JSON logs.
    pub governance_event: Option<String>,
    /// Structured governance failure class parsed from JSON logs.
    pub governance_failure_class: Option<String>,
    /// Human-readable governance message parsed from JSON logs.
    pub governance_message: Option<String>,
    /// Worker-local monotonic sequence.
    pub sequence: i64,
    /// Creation timestamp in RFC3339 format.
    pub created_at: String,
}

/// Response for a script diff.
#[derive(Debug)]
pub struct ScriptDiffApiResponse {
    /// Diff result containing content and policy differences.
    pub data: ScriptDiffResult,
}

/// Diff result between two script versions.
#[derive(Debug)]
pub struct ScriptDiffResult {
    /// Unified diff of script content.
    pub content_diff: String,
    /// Policy field changes.
    pub policy_diff: Vec<FieldChange>,
}

/// A single field change between versions.
#[derive(Debug)]
pub struct FieldChange {
    /// Field name.
    pub field: String,
    /// Value in version 1.
    pub before: String,
    /// Value in version 2.
    pub after: String,
}

/// Governed audit log export payload.
#[derive(Debug)]
pub struct AuditLogExport {
    /// Export format. Currently `json`.
    pub format: String,
    /// Exported audit log entries.
    pub items: Vec<AuditLogSummary>,
    /// Number of exported items.
    pub exported: u64,
    /// Maximum rows allowed in one export.
    pub max_rows: u64,
    /// Whether sensitive snapshot/detail fields were redacted.
    pub redacted: bool,
    /// Governance note for operators.
    pub governance: String,
}

/// Paginated audit log list.
#[derive(Debug)]
pub struct AuditLogPage {
    /// Audit log entries.
    pub items: Vec<AuditLogSummary>,
    /// Total matching row count before pagination.
    pub total: u64,
    /// Opaque token for the next page.
    pub next_page_token: Option<String>,
}

/// Audit log summary for API responses.
#[derive(Debug)]
pub struct AuditLogSummary {
    /// Audit log identifier.
    pub id: String,
    /// Actor who performed the action.
    pub actor: String,
    /// Action performed.
    pub action: String,
    /// Resource type.
    pub resource_type: String,
    /// Resource identifier.
    pub resource_id: String,
    /// Optional detail.
    pub detail: Option<String>,
    /// Optional JSON snapshot before the action.
    pub before: Option<String>,
    /// Optional JSON snapshot after the action.
    pub after: Option<String>,
    /// Request trace id.
    pub trace_id: Option<String>,
    /// Result status (`success` or `failed`).
    pub result: String,
    /// Optional failure reason.
    pub failure_reason: Option<String>,
    /// Client IP address.
    pub ip_address: Option<String>,
    /// Creation timestamp.
    pub created_at: String,
}

/// Successful API code.
pub const SUCCESS_CODE: i32 = 0;

/// Generic API envelope returned by every business HTTP API.
#[derive(Debug)]
pub struct ApiResponse<T> {
    /// Business status code. `0` means success; non-zero values mean failure.
    pub code: i32,
    /// Human-readable response information.
    pub message: String,
    /// Response data. This field is always present, even when it is `null`.
    pub data: Option<T>,
}

impl<T> ApiResponse<T> {
    /// Builds a successful response with non-null data.
    pub fn success(data: T) -> (res: Self)
        ensures
            res.code == SUCCESS_CODE,
            res.message@ == "success"@,
            res.data == Some(data),
    {
        ApiResponse { code: SUCCESS_CODE, message: String::from_str("success"), data: Some(data) }
    }
}

/// URL/File/Secret grants of a script release, as the release gate evaluates them.
#[derive(Debug, Default)]
pub struct ScriptReleaseGrantSet {
    /// Approved URL hosts or URL policy references.
    pub url: Vec<String>,
    /// Approved read-only file paths or file policy references.
    pub file_read: Vec<String>,
    /// Approved writable file paths or file policy references.
    pub file_write: Vec<String>,
    /// Approved secret references.
    pub secret: Vec<String>,
}

impl From<ScriptReleaseGrants> for ScriptReleaseGrantSet {
    fn from(value: ScriptReleaseGrants) -> (res: Self) {
        ScriptReleaseGrantSet {
            url: value.url,
            file_read: value.file_read,
            file_write: value.file_write,
            secret: value.secret,
        }
    }
}

impl vstd::std_specs::convert::FromSpecImpl<ScriptReleaseGrants> for ScriptReleaseGrantSet {
    open spec fn obeys_from_spec() -> bool {
        true
    }

    open spec fn from_spec(value: ScriptReleaseGrants) -> Self {
        ScriptReleaseGrantSet {
            url: value.url,
            file_read: value.file_read,
            file_write: value.file_write,
            secret: value.secret,
        }
    }
}

} // verus!
