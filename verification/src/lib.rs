//! Task lifecycle and dispatch core for a distributed image-generation
//! sandbox: a task store with exactly-once claiming, the dispatch protocol
//! between producers, the store and workers, the worker poll loop and its
//! progress reporter, worker authentication, and the compute-instance
//! lifecycle controller.

pub mod auth;
pub mod autoscaling;
pub mod protocol;
pub mod stable_diffusion;
pub mod store;
pub mod task;
pub mod worker;
