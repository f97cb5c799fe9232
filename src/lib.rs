//! Token-authenticated connection establishment for an IAM-authenticated
//! distributed SQL cluster.
//!
//! The library decides; the caller performs. A [`connector::Connector`] is a
//! state machine that, fed the outcome of each outside step (credential
//! loading, token signing, pool opening), answers with the next
//! [`connector::Action`] to perform.
pub mod config;
pub mod connector;
pub mod fixture;
pub mod laws;
