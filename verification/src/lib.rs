//! Boundary service for a storage-proof workflow.
//!
//! The library lets a caller seal raw sector data into a committed replica
//! with a proof, verify that proof, recover the original data (fully or by
//! byte range) from a sealed replica, and generate and verify aggregate
//! proofs-of-spacetime across several replica commitments.
//!
//! The heart of the crate is the boundary protocol itself: fixed-layout data
//! contracts for identifiers, commitments and proofs; a uniform three-way
//! classification of every outcome (success, receiver error, unclassified
//! error); an exactly-once release discipline for result objects handed to
//! the caller; and the orchestration logic that turns store-level partial
//! results into boundary-level status codes. The sector store and the
//! proving engine are collaborators behind the boundary; this crate carries
//! verified in-memory models of both, so that every dispatch decision is
//! proved against an explicit model of what the collaborators do.

pub mod api;
pub mod engine;
pub mod error;
pub mod lifecycle;
pub mod post;
pub mod responses;
pub mod store;
pub mod types;
