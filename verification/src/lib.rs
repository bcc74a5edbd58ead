//! Verified core of Sockudo's Redis coordination: the delta-interval
//! counter protocol that nodes of a cluster share through Redis, and the
//! timeout and connection rules of the Redis-backed queue.

pub mod duration;
pub mod error;
pub mod coordinator;
pub mod counter;
pub mod counter_model;
pub mod queue;
pub mod cluster_client;
