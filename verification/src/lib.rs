//! Gated version updates for long-running workloads.
//!
//! The crate decides, per resource, whether a newly published container image
//! or chart version may replace the running one: a pure version-policy engine,
//! an approval-request lifecycle with a phase state machine, the planning core
//! of the reconciliation loop shared by every watched resource kind, and the
//! event-dedup cache fed by registry polling.

pub mod strutil;
pub mod version;
pub mod glob;
pub mod policy;
pub mod engine;
pub mod image;
pub mod webhook;
pub mod requests;
pub mod lifecycle;
pub mod timefmt;
pub mod oci;
pub mod dedup;
pub mod reconcile;
pub mod view;
