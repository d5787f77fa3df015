//! Yama's ptrace-scope enforcement, as decisions over a snapshot of the
//! kernel's task graph and its list of declared ptracer relations.
//!
//! The kernel glue (RCU, task locks, capability checks, task work) lives
//! outside this crate; it reads the task graph into a [`task::TaskTable`],
//! hands the plain values to the functions here and performs what they decide.

pub mod task;
pub mod relation;
pub mod policy;
pub mod report;
