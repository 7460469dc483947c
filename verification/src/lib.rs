//! Verified core of the tikeo job scheduler: request and response models,
//! workflow definition validation, scheduling advice, raft bootstrap checks,
//! worker tunnel decisions and notification template bookkeeping.

pub mod api_error;
pub mod text;
pub mod workflow;
pub mod raft_bootstrap;
pub mod management_api;
pub mod scheduling;
pub mod event_sources;
pub mod worker_tunnel;
pub mod notification_templates;
pub mod raft_store;
pub mod notification_schema;
pub mod scheduler_api;
pub mod dev_auth;
pub mod storage_compat;
