//! A self-provisioning bootstrap library: the verified core of a small
//! "update and run" shim that keeps a Java runtime and an application
//! package present and healthy on the local machine, then launches the
//! application.
//!
//! The library holds the decision logic only: the stage resolver, the
//! orchestration state machine with its bounded retry budget, archive
//! integrity checking, the extraction plan with top-level stripping,
//! and the query-URL and launch-command builders.  All file, network
//! and process work is done by the surrounding binary, which feeds the
//! observations and outcomes back into the state machine.

pub mod archive;
pub mod checksum;
pub mod config;
pub mod jre;
pub mod launcher;
pub mod machine;
pub mod paths;
pub mod platform;
pub mod progress;
pub mod stage;
pub mod text;
