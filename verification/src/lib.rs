//! Deny-by-default workflow policy for tool requests proposed by AI agents:
//! taint labels, short-lived capabilities, an explainable policy decision and a
//! tamper-evident, hash-linked audit chain.

pub mod audit;
pub mod capability;
mod clock;
pub mod digest;
pub mod encoding;
pub mod labels;
pub mod policy;
pub mod service;
pub mod workflow;

pub use audit::{AuditChain, AuditEntry, AuditError};
pub use capability::{Capability, CapabilityError};
pub use labels::{DataLabel, Operation};
pub use policy::{Decision, PolicyEngine, ToolRequest, Verdict};
