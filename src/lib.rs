//! Guest-side agent core: pulls tasks from a host orchestrator, stages their
//! input files, hands them to caller-supplied execution logic, and ships the
//! results and output files back over chunked transfer streams.

pub mod checksum;
pub mod frame;
pub mod upload;
pub mod download;
pub mod task;
pub mod mount;
pub mod agent;
