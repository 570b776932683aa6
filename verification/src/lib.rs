//! Plugin executor core: runtime dispatch and the git-backed execution
//! pipeline for running one workflow step.
//!
//! The library holds the decision logic of the executor: parsing the
//! repository URL, gating the requested interpreter version, dispatching a
//! runtime identifier to an executor, and driving the fetch / install / run
//! pipeline as a state machine whose outside steps (VCS operations, process
//! spawning) are performed by the embedding program, which feeds their
//! outcomes back as events.

pub mod argo;
pub mod git;
pub mod pipeline;
pub mod python;
pub mod runner;
pub mod text;
