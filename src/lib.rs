//! Job lifecycle core: a registry of jobs, the worker's transition steps and
//! the status events they emit, the startup and relay decisions of the
//! long-running tasks, and the credential store used by the auth handlers.

pub mod job;
pub mod registry;
pub mod worker;
pub mod control;
pub mod error;
pub mod users;
pub mod laws;
