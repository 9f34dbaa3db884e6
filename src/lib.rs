//! Verified core of a watch-rebuild-restart supervisor: the decisions that
//! turn filesystem changes into rebuilds and rebuilds into process restarts.
//!
//! - `json`: a plain model of a JSON document, as serde_json parses it.
//! - `artifacts`: the executable paths that a build's structured output reports.
//! - `artifact_map`: the last known modification time of each artifact.
//! - `classify`: whether a change notification calls for a rebuild.
//! - `coordinator`: the rebuild loop's state machine and its laws.
//! - `supervisor`: the child process's lifecycle and the command lines run.
pub mod artifact_map;
pub mod artifacts;
pub mod classify;
pub mod coordinator;
pub mod json;
pub mod supervisor;
