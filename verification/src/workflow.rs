//! Workflow DAG definitions and their validation.

pub mod model;
pub mod config;
pub mod graph;
pub mod validation;
