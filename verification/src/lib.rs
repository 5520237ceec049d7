//! A sidecar process supervisor.
//!
//! The library holds the decision logic of a supervisor that locates a
//! backend executable, launches it on a caller-supplied port, tracks at most
//! one live process handle, and replaces the running backend on request.
//! Everything the operating system does — probing the filesystem, spawning,
//! killing, waiting, sleeping — happens outside the library; the library is
//! handed the facts (which candidate files exist, what the spawn returned)
//! and produces the decisions (which file to run, with which arguments,
//! which handle to kill) together with proofs about them.

pub mod decimal;
pub mod errors;
pub mod launch;
pub mod supervisor;
