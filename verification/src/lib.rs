//! The decisions and statements of the Filebelt metadata repository.
//!
//! PostgreSQL is the authority for every piece of Filebelt metadata, and each repository
//! operation is a conversation with it: run a statement, look at the answer, go on, stop with
//! an error, or commit. This crate holds those conversations as pure functions. An operation
//! takes its input and the replies received so far, and says what to do next:
//! see [`step::Step`]. Whoever owns the connection performs the command, appends the reply to
//! the log and asks again, until the operation is done or has failed.

pub mod acl;
pub mod authorization;
pub mod collaboration;
pub mod collaboration_replay;
pub mod collaboration_retention;
pub mod database;
pub mod document;
pub mod document_page;
pub mod document_retention;
pub mod error;
pub mod fence;
pub mod id;
pub mod idempotency;
pub mod identity;
pub mod job;
pub mod json;
pub mod laws;
pub mod mcp;
pub mod media;
pub mod namespace;
pub mod progress;
pub mod repeats;
pub mod row;
pub mod sql;
pub mod step;
pub mod tables;
pub mod tenant;
pub mod text;
pub mod upload;
