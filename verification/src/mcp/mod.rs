//! The MCP registry: registrations, credentials, grants, approvals and invocations.

pub mod broker_idempotency;
pub mod capability;
pub mod grant;
pub mod idempotency;
pub mod invocation;
pub mod management;
pub mod operations;
pub mod policy;
pub mod registration;
pub mod runner_slots;
pub mod secret;
