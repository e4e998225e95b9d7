//! Composition layer of a blockchain node's state-transition runtime.
//!
//! This crate owns two things outright: the parameter contract — a fixed set
//! of named constants and per-module capability bindings that must be
//! mutually consistent — and the consensus-gating hook, which intercepts the
//! timestamp-set event raised on block production and conditionally
//! suppresses the authoring module's default validation effect depending on
//! the node's sealing mode. The collaborator modules themselves (account
//! ledger, block authoring, finality voting, timestamp tracking, execution
//! engine) are external: this layer only configures them and occasionally
//! intercepts one of their callbacks.

pub mod bindings;
pub mod compose;
pub mod gate;
pub mod params;
pub mod sealing;
