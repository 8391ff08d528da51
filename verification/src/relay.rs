//! The dual-stream relay's per-line decision for the child's stderr.
//!
//! The relay itself drains the child's streams outside this crate; for each
//! stderr line it asks `classify_stderr_line` what to do: re-emit the line
//! verbatim, record a caught panic, record a checkpoint event, or fail the
//! whole test because a probe-framed line carried something only a violated
//! protocol could produce.

use vstd::prelude::*;

use crate::probe::{
    encode_spec, ends_with_marker, frame_payload, frame_prefix, generate_probe, parse_probe,
    strip_marker, well_framed, ProbeDecode,
};
use crate::reached::{parse_reach_info, reach_info_spec, ReachLineInfo};
use crate::supervisor::TestFailure;

verus! {

/// The reserved probe payload that reports a caught panic.
pub open spec fn panic_payload() -> Seq<char> {
    seq!['p']
}

/// The probe line the child emits when an expected panic was caught.
pub fn panic_probe_line() -> (r: String)
    ensures
        r@ == encode_spec(panic_payload()),
{
    proof {
        reveal_strlit("p");
        assert("p"@ =~= seq!['p']);
    }
    generate_probe("p")
}

/// What the relay must do with one line of child stderr.
pub enum LineAction {
    /// Not probe-framed: re-emit the whole line verbatim to stderr.
    EmitStderr,
    /// A panic probe while a panic is expected: record panic-observed, emit
    /// the preceding prefix (if non-empty), swallow the marker.
    RecordPanic { prefix: String },
    /// A checkpoint probe while checkpoint checking is on: append the event
    /// to the collected sequence, emit the prefix, swallow the marker.
    RecordReach { prefix: String, event: ReachLineInfo },
    /// A probe-framed line that the protocol cannot explain: fatal. The
    /// prefix still precedes the failure on stderr.
    Fail { prefix: String, failure: TestFailure },
}

/// Decides what to do with one stderr line. `expects_panic` and
/// `check_reach` come from the test's configuration.
pub fn classify_stderr_line(line: &str, expects_panic: bool, check_reach: bool) -> (r: LineAction)
    ensures
        ({
            let s = strip_marker(line@);
            match r {
                LineAction::EmitStderr => !ends_with_marker(line@),
                LineAction::RecordPanic { prefix } => ends_with_marker(line@) && well_framed(s)
                    && prefix@ == frame_prefix(s) && expects_panic && frame_payload(s)
                    == panic_payload(),
                LineAction::RecordReach { prefix, event } => ends_with_marker(line@)
                    && well_framed(s) && prefix@ == frame_prefix(s) && check_reach && !(
                expects_panic && frame_payload(s) == panic_payload()) && reach_info_spec(
                    frame_payload(s),
                ) == Some(event),
                LineAction::Fail { prefix, failure } => ends_with_marker(line@) && ({
                    ||| (failure == TestFailure::BadProbeFrame && !well_framed(s) && prefix@
                        =~= Seq::<char>::empty())
                    ||| (failure == TestFailure::UnknownProbe && well_framed(s) && prefix@
                        == frame_prefix(s) && !(expects_panic && frame_payload(s)
                        == panic_payload()) && !(check_reach && reach_info_spec(frame_payload(s))
                        is Some))
                }),
            }
        }),
{
    proof {
        reveal_strlit("p");
        assert("p"@ =~= seq!['p']);
    }
    match parse_probe(line) {
        ProbeDecode::NoMarker => LineAction::EmitStderr,
        ProbeDecode::BadFrame => LineAction::Fail {
            prefix: String::new(),
            failure: TestFailure::BadProbeFrame,
        },
        ProbeDecode::Decoded { prefix, payload } => {
            let is_panic_payload = payload.eq(&String::from_str("p"));
            if expects_panic && is_panic_payload {
                LineAction::RecordPanic { prefix }
            } else if check_reach {
                match parse_reach_info(payload.as_str()) {
                    Some(event) => LineAction::RecordReach { prefix, event },
                    None => LineAction::Fail { prefix, failure: TestFailure::UnknownProbe },
                }
            } else {
                LineAction::Fail { prefix, failure: TestFailure::UnknownProbe }
            }
        },
    }
}

} // verus!
