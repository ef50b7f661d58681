//! Address resolution for hostnames that a cluster exposes.
//!
//! A topology cache holds the current hostname-to-address snapshot and decides
//! when it has to be refreshed; names that the snapshot does not hold go
//! through a primary and then a failover resolver. Every function here works
//! on plain values: the caller performs the network calls and hands their
//! results back.

pub mod address;
pub mod cache;
pub mod client;
pub mod clock;
pub mod config;
pub mod error;
pub mod handler;
pub mod kube;
pub mod options;
pub mod request;
pub mod response;
pub mod topology;
