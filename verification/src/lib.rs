//! Verified core of a sandboxed benchmarking harness: container lifecycle
//! bookkeeping, energy-sample integration, and test execution/aggregation
//! logic. All I/O (subprocesses, sockets, files) lives outside this crate;
//! the functions here take and return plain values and carry contracts.

pub mod command;
pub mod compare;
pub mod docker;
pub mod energymonitor;
pub mod suite;
pub mod text;

pub use suite::{
    build_error_response, CLIResponseError, Lang, RepeatTestsParams, RunResult, TestResult,
    TestRunResult, TestStats, Verdict,
};
