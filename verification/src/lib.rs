//! Simulation of one transaction against a pinned, remotely fetched chain state,
//! with local state overrides and hash-keyed dispatch to native contract routines.

pub mod backend;
pub mod block;
pub mod cache;
pub mod coherence;
pub mod digest;
pub mod dispatch;
pub mod outcome;
pub mod overrides;
pub mod primitives;
pub mod registry;
