//! Verified core of a token factory: a bidirectional pair registry, the
//! configuration store, the deploy/upgrade request builder, the admin gateway
//! and the issuance workflow, each as a step from state and input to new state
//! and the outside actions to perform.
pub mod config;
pub mod factory;
pub mod master;
