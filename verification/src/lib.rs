//! A scheduler for jobs that run for as long as the program does.
//!
//! A job that crashes is retried, one that loses a resource is restarted, and all of them are
//! terminated together in the end, gracefully where they support it. This crate holds the
//! scheduler's books and its decisions. It runs nothing itself: the program around it runs the
//! tasks, waits where it is told to wait, and says what happened.

#![allow(unused_imports)]

pub mod job;
pub mod laws;
pub mod lifecycle;
pub mod operations;
pub mod registry;
pub mod scheduler;
pub mod signals;
pub mod status;
pub mod status_server;
pub mod task_ids;
pub mod tasks;

pub use job::Job;
pub use scheduler::JobScheduler;
pub use status_server::StatusServer;
