//! Request and response models of the scheduler node's management API.
use vstd::prelude::*;

verus! {

/// Generic page response.
#[derive(Debug)]
pub struct Page {
    /// Page items.
    pub items: Vec<JobSummary>,
    /// Token for the next page when more data is available.
    pub next_page_token: Option<String>,
}

/// Common list query parameters.
#[derive(Debug, Default)]
pub struct PageQuery {
    /// Maximum number of items to return.
    pub page_size: Option<u32>,
    /// Opaque page token returned by a previous list call.
    pub page_token: Option<String>,
}

/// System information shown by the management API.
#[derive(Debug)]
pub struct SystemInfoResponse {
    /// API service name.
    pub name: &'static str,
    /// Server crate version.
    pub version: &'static str,
    /// Rust package target environment.
    pub target: &'static str,
}

/// Cluster status summary.
#[derive(Debug)]
pub struct ClusterResponse {
    /// Cluster operating mode.
    pub mode: &'static str,
    /// Current node role.
    pub role: &'static str,
    /// Known server node count.
    pub nodes: u32,
}

/// Job summary.
#[derive(Debug)]
pub struct JobSummary {
    /// Job identifier.
    pub id: String,
    /// Display name.
    pub name: String,
    /// Job enabled flag.
    pub enabled: bool,
}

/// Create job request.
#[derive(Debug)]
pub struct CreateJobRequest {
    /// Display name.
    pub name: String,
}

} // verus!
