//! The supervisor's decisions: resolving the single-test selector, the
//! child invocation arguments, the stdout prefix that guards against
//! supervising the wrong test, and the interpretation of the child's exit
//! and collected signals into a final verdict.
//!
//! Spawning the child, draining its streams and waiting on it happen
//! outside this crate; they hand plain values to the functions here.

use vstd::prelude::*;

use crate::reached::{reaches_accepted, validate_reaches, ReachLineInfo};
use crate::{TestConfig, TestResult};

verus! {

/// The first index where `"::"` occurs in `s` at or after `i`, or -1.
pub open spec fn first_sep_from(s: Seq<char>, i: int) -> int
    decreases s.len() - i,
{
    if i < 0 || i + 2 > s.len() {
        -1
    } else if s[i] == ':' && s[i + 1] == ':' {
        i
    } else {
        first_sep_from(s, i + 1)
    }
}

/// The first index where `"::"` occurs in `s`, or -1.
pub open spec fn first_sep(s: Seq<char>) -> int {
    first_sep_from(s, 0)
}

/// The selector for one test: the module path with its outermost segment
/// stripped (the child's self-invocation already targets the binary), then
/// the test's own name.
pub open spec fn exact_name_spec(mod_path: Seq<char>, test_name: Seq<char>) -> Seq<char> {
    let i = first_sep(mod_path);
    if i < 0 {
        test_name
    } else {
        mod_path.subrange(i + 2, mod_path.len() as int) + seq![':', ':'] + test_name
    }
}

/// Resolves the fully qualified single-test selector from a module path and
/// a test name.
pub fn get_test_exact_name(mod_path: &str, test_name: &str) -> (r: String)
    ensures
        r@ == exact_name_spec(mod_path@, test_name@),
{
    let n = mod_path.unicode_len();
    let mut i: usize = 0;
    while n >= 2 && i <= n - 2
        invariant
            0 <= i <= n,
            n == mod_path@.len(),
            first_sep(mod_path@) == first_sep_from(mod_path@, i as int),
        decreases n - i,
    {
        if mod_path.get_char(i) == ':' && mod_path.get_char(i + 1) == ':' {
            proof {
                assert(mod_path@[i as int] == ':' && mod_path@[i + 1] == ':');
                assert(first_sep_from(mod_path@, i as int) == i as int);
                assert(first_sep(mod_path@) == i as int);
            }
            let rest = mod_path.substring_char(i + 2, n);
            let mut r = String::from_str(rest);
            r.append("::");
            r.append(test_name);
            proof {
                reveal_strlit("::");
                assert("::"@ =~= seq![':', ':']);
                assert(rest@ == mod_path@.subrange(i + 2, n as int));
                assert(r@ =~= mod_path@.subrange(i + 2, n as int) + seq![':', ':'] + test_name@);
                assert(r@ =~= exact_name_spec(mod_path@, test_name@));
            }
            return r;
        }
        i = i + 1;
    }
    String::from_str(test_name)
}

/// The literal line the child's underlying test framework prints before any
/// user output when it runs exactly the selected test.
pub open spec fn prefix_spec(name: Seq<char>) -> Seq<char> {
    "\nrunning 1 test\ntest "@ + name + " ... "@
}

/// Writes the stdout prefix expected from a child running the named test.
pub fn expected_output_prefix(name: &str) -> (r: String)
    ensures
        r@ == prefix_spec(name@),
{
    let mut r = String::from_str("\nrunning 1 test\ntest ");
    r.append(name);
    r.append(" ... ");
    r
}

/// Checks the first bytes of child stdout against the expected prefix for
/// the named test; a mismatch means the child ran the wrong thing and is
/// fatal for the caller.
pub fn validate_test_output_prefix(name: &str, actual: &str) -> (r: bool)
    ensures
        r == (actual@ == prefix_spec(name@)),
{
    let expected = expected_output_prefix(name);
    String::from_str(actual).eq(&expected)
}

/// The arguments of the child invocation: select exactly one test by its
/// qualified name, run it single-threaded, keep the inner framework from
/// capturing output, and force-include it if it is marked ignored.
pub fn child_args(test_exact_name: &str, ignore: bool) -> (r: Vec<String>)
    ensures
        r@.len() == (if ignore {
            5int
        } else {
            4int
        }),
        r@[0]@ == test_exact_name@,
        r@[1]@ == "--exact"@,
        r@[2]@ == "--test-threads=1"@,
        r@[3]@ == "--nocapture"@,
        ignore ==> r@[4]@ == "--ignored"@,
{
    let mut r: Vec<String> = Vec::new();
    r.push(String::from_str(test_exact_name));
    r.push(String::from_str("--exact"));
    r.push(String::from_str("--test-threads=1"));
    r.push(String::from_str("--nocapture"));
    if ignore {
        r.push(String::from_str("--ignored"));
    }
    r
}

/// How the wait on the child ended: the bound elapsed first, the child was
/// terminated by a signal, or it exited with a code.
#[derive(Debug, PartialEq, Eq, Clone, Copy, Structural)]
pub enum WaitOutcome {
    /// The configured timeout elapsed before the child exited.
    TimedOut,
    /// The child was terminated by a signal; no exit code is available.
    Signal,
    /// The child exited on its own with this code.
    Exited(i32),
}

/// Every way one supervised test run can fail.
#[derive(Debug, PartialEq, Eq, Clone, Copy, Structural)]
pub enum TestFailure {
    /// Child stdout did not begin with the expected framework prefix.
    PrefixMismatch,
    /// A line ended with the probe marker but its frame was malformed.
    BadProbeFrame,
    /// A well-framed probe carried a payload the protocol cannot explain.
    UnknownProbe,
    /// The configured timeout elapsed before the child exited; the bound
    /// is carried for diagnosis.
    Timeout { timeout_ms: u64 },
    /// The child was terminated by a signal.
    Signal,
    /// The child's exit code differs from the expected one.
    ExitCodeMismatch { expected: i32, actual: i32 },
    /// A panic was observed but not expected, or expected but not observed.
    PanicMismatch { expected_panic: bool, observed_panic: bool },
    /// The collected checkpoint sequence is not an accepted order.
    ReachOrderInvalid,
    /// The whole run was expected to fail and did not.
    UnexpectedSuccess,
}

/// Whether the configuration expects the child's body to panic.
pub open spec fn expects_panic(c: TestConfig) -> bool {
    c.expected_result is Panic
}

/// The exit code the child must produce: the configured code, or zero when
/// a panic is expected, since a caught panic still lets the child exit
/// cleanly.
pub open spec fn expected_exit_code_spec(r: TestResult) -> i32 {
    match r {
        TestResult::Panic => 0,
        TestResult::ExitCode(code) => code,
    }
}

/// Whether this configuration expects the child's body to panic.
pub fn config_expects_panic(c: &TestConfig) -> (r: bool)
    ensures
        r == expects_panic(*c),
{
    match c.expected_result {
        TestResult::Panic => true,
        TestResult::ExitCode(_) => false,
    }
}

/// The exit code the child must produce under this expectation.
pub fn expected_exit_code(r: &TestResult) -> (code: i32)
    ensures
        code == expected_exit_code_spec(*r),
{
    match r {
        TestResult::Panic => 0,
        TestResult::ExitCode(code) => *code,
    }
}

/// The verdict on one run, checked in order: how the wait ended and the
/// exit code, then the panic expectation, then the checkpoint order.
pub open spec fn outcome_spec(
    c: TestConfig,
    wait: WaitOutcome,
    panicked: bool,
    reaches: Seq<ReachLineInfo>,
) -> Result<(), TestFailure> {
    match wait {
        WaitOutcome::TimedOut => Err(TestFailure::Timeout { timeout_ms: c.timeout_ms }),
        WaitOutcome::Signal => Err(TestFailure::Signal),
        WaitOutcome::Exited(code) => if code != expected_exit_code_spec(c.expected_result) {
            Err(
                TestFailure::ExitCodeMismatch {
                    expected: expected_exit_code_spec(c.expected_result),
                    actual: code,
                },
            )
        } else if panicked != expects_panic(c) {
            Err(TestFailure::PanicMismatch { expected_panic: expects_panic(c), observed_panic: panicked })
        } else if c.check_reach && !reaches_accepted(reaches) {
            Err(TestFailure::ReachOrderInvalid)
        } else {
            Ok(())
        },
    }
}

/// Judges one supervised run from what the wait and the relay collected:
/// the exit must match the expectation, a panic must have been observed
/// exactly when one was expected, and, when checkpoint checking was
/// requested, the collected sequence must be an accepted order. Timeout and
/// signal termination are fatal whatever the expectation.
pub fn evaluate_outcome(
    config: &TestConfig,
    wait: WaitOutcome,
    panicked: bool,
    reaches: &[ReachLineInfo],
) -> (r: Result<(), TestFailure>)
    ensures
        r == outcome_spec(*config, wait, panicked, reaches@),
        r is Ok <==> (wait matches WaitOutcome::Exited(code) && code == expected_exit_code_spec(
            config.expected_result,
        ) && panicked == expects_panic(*config) && (config.check_reach ==> reaches_accepted(
            reaches@,
        ))),
{
    match wait {
        WaitOutcome::TimedOut => Err(TestFailure::Timeout { timeout_ms: config.timeout_ms }),
        WaitOutcome::Signal => Err(TestFailure::Signal),
        WaitOutcome::Exited(code) => {
            let expected = expected_exit_code(&config.expected_result);
            if code != expected {
                return Err(TestFailure::ExitCodeMismatch { expected, actual: code });
            }
            let expect_panic = match config.expected_result {
                TestResult::Panic => true,
                TestResult::ExitCode(_) => false,
            };
            if panicked != expect_panic {
                return Err(
                    TestFailure::PanicMismatch { expected_panic: expect_panic, observed_panic: panicked },
                );
            }
            if config.check_reach && !validate_reaches(reaches) {
                return Err(TestFailure::ReachOrderInvalid);
            }
            Ok(())
        },
    }
}

/// The verdict after the run's own expectation about itself is applied.
pub open spec fn parent_expectation_spec(
    parent_should_panic: bool,
    inner: Result<(), TestFailure>,
) -> Result<(), TestFailure> {
    if !parent_should_panic {
        inner
    } else if inner is Err {
        Ok(())
    } else {
        Err(TestFailure::UnexpectedSuccess)
    }
}

/// Inverts the verdict for a test whose whole supervised run is expected to
/// fail: such a run passes exactly when the inner verdict is a failure, and
/// is itself a failure when the inner run succeeded. Without the mark the
/// inner verdict stands unchanged.
pub fn apply_parent_expectation(parent_should_panic: bool, inner: Result<(), TestFailure>) -> (r:
    Result<(), TestFailure>)
    ensures
        r == parent_expectation_spec(parent_should_panic, inner),
        parent_should_panic ==> (r is Ok <==> inner is Err),
{
    if !parent_should_panic {
        inner
    } else {
        match inner {
            Err(_) => Ok(()),
            Ok(_) => Err(TestFailure::UnexpectedSuccess),
        }
    }
}

} // verus!
