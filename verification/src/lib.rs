//! Build-job orchestration for a package-repository publishing service.
//!
//! The crate holds the decisions of the service as verified code over plain
//! values: which job may be claimed next, what the commit and publish
//! pipelines run and in which order, how the output of a child process is
//! collected, how build states are stored, and when the dispatch queue asks
//! the executor for work. Spawning processes, touching the file system and
//! talking to the job store are left to the caller, which performs the
//! actions that the library hands out and reports back what happened.

pub mod text;
pub mod errors;
pub mod models;
pub mod command;
pub mod config;
pub mod pipeline;
pub mod repo;
pub mod commit;
pub mod publish;
pub mod scheduler;
pub mod queue;
pub mod executor;
pub mod job_run;
