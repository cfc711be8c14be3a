//! Client-side session and subscription engine for a distributed
//! configuration and service-discovery cluster.
//!
//! The crate verifies the logic of the client: subscription tables and
//! digest caches for configuration keys, instance caches and change deltas
//! for service keys, weighted-random instance selection, endpoint failover
//! and auth-token refresh decisions. Transport and payload encoding are
//! external collaborators and stay outside the library.

pub mod auth;
pub mod config_key;
pub mod conn;
pub mod config_service;
pub mod conn_msg;
pub mod digest;
pub mod grpc;
pub mod errors;
pub mod instance;
pub mod naming_service;
pub mod rng;
