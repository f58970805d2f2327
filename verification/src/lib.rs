//! Core logic for merging an accepted RFC pull request: locating the proposal
//! document among a pull request's changed files, parsing its four-line
//! header, composing the tracking issue and the suggested-change review
//! comment, and sequencing those steps as a state machine whose gateway
//! calls are performed by the surrounding application.

pub mod command;
pub mod compose;
pub mod errors;
pub mod header;
pub mod inspector;
pub mod orchestrator;
pub mod repo;
pub mod textutil;
