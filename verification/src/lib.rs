//! A process-isolation test harness library.
//!
//! Each logical test case runs its real body inside a freshly spawned copy of
//! the test binary, while a supervising parent process observes the child's
//! exit status, stdout and stderr to decide pass or fail. This crate holds the
//! verified core of that protocol: the probe codec that frames structured
//! signals inside a free-form text stream, the checkpoint sequencer that
//! validates the order of reach events, the per-line classification done by
//! the stream relay, and the supervisor's interpretation of the child's exit
//! and collected signals. Process spawning and stream I/O live outside this
//! crate and hand plain values in and out.

use vstd::prelude::*;

pub mod digits;
pub mod probe;
pub mod reached;
pub mod relay;
pub mod supervisor;

verus! {

/// Declarative per-test configuration, immutable once constructed.
pub struct TestConfig {
    /// The test is marked ignored; the child invocation must force-include it.
    pub ignore: bool,
    /// Timeout bound for the child's run, in milliseconds; zero means
    /// "wait without a bound".
    pub timeout_ms: u64,
    /// Whether the collected checkpoint events are validated after the run.
    pub check_reach: bool,
    /// What the child is expected to do: exit with a code, or panic.
    pub expected_result: TestResult,
    /// The whole supervised run is itself expected to fail; the outer caller
    /// asserts that it does.
    pub parent_should_panic: bool,
}

/// The expected outcome of the child process.
pub enum TestResult {
    /// The test body is expected to panic; the panic is caught in the child,
    /// reported through a probe, and the child still exits with code 0.
    Panic,
    /// The child is expected to exit with exactly this code.
    ExitCode(i32),
}

impl Default for TestConfig {
    /// Not ignored, a five-second timeout, no checkpoint checking, a clean
    /// exit expected, and the run itself expected to succeed.
    fn default() -> (c: TestConfig)
        ensures
            !c.ignore,
            c.timeout_ms == 5000,
            !c.check_reach,
            c.expected_result is ExitCode && c.expected_result->0 == 0,
            !c.parent_should_panic,
    {
        TestConfig {
            ignore: false,
            timeout_ms: 5000,
            check_reach: false,
            expected_result: TestResult::ExitCode(0),
            parent_should_panic: false,
        }
    }
}

} // verus!
