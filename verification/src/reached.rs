//! Checkpoints: the events a test body emits to assert that execution
//! passed through numbered points in order, their wire encoding as probe
//! payloads, and the state machine that validates a collected sequence.
//!
//! The sequencer accepts exactly the runs `Nth(0), Nth(1), …, Nth(n), Last`
//! and the bare run `Last`: any gap, repeat, out-of-order arrival, `Never`
//! anywhere, an event after `Last`, or an empty run invalidates the whole
//! sequence.

use vstd::prelude::*;

use crate::digits::{
    all_digits, decimal_digits, digits_value, is_digit_char, lemma_decimal_digits_are_digits,
    lemma_decimal_digits_value, parse_u64_digits, u64_to_dec_string,
};
use crate::probe::{
    encode_spec, ends_with_marker, frame_payload, frame_prefix, generate_probe,
    lemma_probe_round_trip, strip_marker, well_framed,
};

verus! {

/// One checkpoint event, as decoded from a probe payload.
#[derive(Debug, PartialEq, Eq, Clone, Copy, Structural)]
pub enum ReachLineInfo {
    /// Execution reached the numbered checkpoint.
    Nth(u16),
    /// Execution reached the final checkpoint; nothing may follow.
    Last,
    /// Execution reached a point it must never reach.
    Never,
}

/// The payload that carries one checkpoint event: `"$"` for `Last`, `"!"`
/// for `Never`, and the decimal number for `Nth`.
pub open spec fn reach_payload_spec(info: ReachLineInfo) -> Seq<char> {
    match info {
        ReachLineInfo::Nth(n) => decimal_digits(n as nat),
        ReachLineInfo::Last => seq!['$'],
        ReachLineInfo::Never => seq!['!'],
    }
}

/// The event a payload decodes to, if any.
pub open spec fn reach_info_spec(s: Seq<char>) -> Option<ReachLineInfo> {
    if s == seq!['$'] {
        Some(ReachLineInfo::Last)
    } else if s == seq!['!'] {
        Some(ReachLineInfo::Never)
    } else if s.len() > 0 && all_digits(s) && digits_value(s) <= u16::MAX {
        Some(ReachLineInfo::Nth(digits_value(s) as u16))
    } else {
        None
    }
}

impl ReachLineInfo {
    /// Writes the event as its probe payload.
    pub fn payload_string(&self) -> (r: String)
        ensures
            r@ == reach_payload_spec(*self),
    {
        match self {
            ReachLineInfo::Nth(n) => u64_to_dec_string(*n as u64),
            ReachLineInfo::Last => {
                proof {
                    reveal_strlit("$");
                    assert("$"@ =~= seq!['$']);
                }
                String::from_str("$")
            },
            ReachLineInfo::Never => {
                proof {
                    reveal_strlit("!");
                    assert("!"@ =~= seq!['!']);
                }
                String::from_str("!")
            },
        }
    }
}

/// Decodes a probe payload as a checkpoint event.
pub fn parse_reach_info(content: &str) -> (r: Option<ReachLineInfo>)
    ensures
        r == reach_info_spec(content@),
{
    proof {
        reveal_strlit("$");
        reveal_strlit("!");
        assert("$"@ =~= seq!['$']);
        assert("!"@ =~= seq!['!']);
    }
    let n = content.unicode_len();
    if n == 1 {
        let c = content.get_char(0);
        if c == '$' {
            assert(content@ =~= seq!['$']);
            return Some(ReachLineInfo::Last);
        }
        if c == '!' {
            assert(content@ =~= seq!['!']);
            return Some(ReachLineInfo::Never);
        }
    }
    assert(content@ != seq!['$'] && content@ != seq!['!']);
    match parse_u64_digits(content) {
        Some(v) => {
            if v <= u16::MAX as u64 {
                Some(ReachLineInfo::Nth(v as u16))
            } else {
                None
            }
        },
        None => None,
    }
}

/// Every payload written for an event decodes back to that event.
pub proof fn lemma_reach_payload_round_trip(info: ReachLineInfo)
    ensures
        reach_info_spec(reach_payload_spec(info)) == Some(info),
{
    match info {
        ReachLineInfo::Nth(n) => {
            lemma_decimal_digits_are_digits(n as nat);
            lemma_decimal_digits_value(n as nat);
            let d = decimal_digits(n as nat);
            assert(is_digit_char(d[0]));
            assert(d[0] != '$' && d[0] != '!');
            if d == seq!['$'] {
                assert(d[0] == '$');
            }
            if d == seq!['!'] {
                assert(d[0] == '!');
            }
            assert(digits_value(d) == n as nat && n as nat <= u16::MAX);
            assert(reach_info_spec(d) == Some(ReachLineInfo::Nth(n)));
        },
        ReachLineInfo::Last => {
            assert(reach_info_spec(seq!['$']) == Some(ReachLineInfo::Last));
        },
        ReachLineInfo::Never => {
            assert(seq!['!'] != seq!['$']) by {
                assert(seq!['!'][0] == '!');
                assert(seq!['$'][0] == '$');
            }
            assert(reach_info_spec(seq!['!']) == Some(ReachLineInfo::Never));
        },
    }
}

/// The wire round trip of a checkpoint event: emitted as a probe frame at
/// the end of any line of free text, the line decodes to that text as the
/// prefix and to exactly the emitted event.
pub proof fn lemma_reach_line_round_trip(q: Seq<char>, info: ReachLineInfo)
    requires
        !ends_with_marker(q),
    ensures
        ({
            let s = strip_marker(q + encode_spec(reach_payload_spec(info)));
            well_framed(s) && frame_prefix(s) == q && reach_info_spec(frame_payload(s))
                == Some(info)
        }),
{
    lemma_probe_round_trip(q, reach_payload_spec(info));
    lemma_reach_payload_round_trip(info);
}

/// The sequencer's state while it consumes events in arrival order.
#[derive(Debug, PartialEq, Eq, Clone, Copy, Structural)]
pub enum ReachState {
    /// Nothing consumed yet.
    Start,
    /// The run so far is exactly `Nth(0) … Nth(k)`.
    SeenNth(u16),
    /// The run so far closed with `Last`; accepting, nothing may follow.
    SeenLast,
    /// The run can no longer be accepted.
    Rejected,
}

/// One transition of the sequencer.
pub open spec fn reach_step(st: ReachState, ev: ReachLineInfo) -> ReachState {
    match ev {
        ReachLineInfo::Never => ReachState::Rejected,
        _ => match st {
            ReachState::Start => match ev {
                ReachLineInfo::Nth(k) => if k == 0 {
                    ReachState::SeenNth(0)
                } else {
                    ReachState::Rejected
                },
                ReachLineInfo::Last => ReachState::SeenLast,
                ReachLineInfo::Never => ReachState::Rejected,
            },
            ReachState::SeenNth(k) => match ev {
                ReachLineInfo::Nth(j) => if j == k as int + 1 {
                    ReachState::SeenNth(j)
                } else {
                    ReachState::Rejected
                },
                ReachLineInfo::Last => ReachState::SeenLast,
                ReachLineInfo::Never => ReachState::Rejected,
            },
            ReachState::SeenLast => ReachState::Rejected,
            ReachState::Rejected => ReachState::Rejected,
        },
    }
}

/// The state after consuming a whole sequence, starting from `Start`.
pub open spec fn run_steps(s: Seq<ReachLineInfo>) -> ReachState
    decreases s.len(),
{
    if s.len() == 0 {
        ReachState::Start
    } else {
        reach_step(run_steps(s.drop_last()), s.last())
    }
}

/// A sequence is accepted exactly when consuming it ends in `SeenLast`.
pub open spec fn reaches_accepted(s: Seq<ReachLineInfo>) -> bool {
    run_steps(s) is SeenLast
}

/// Validates a collected checkpoint sequence against the expected order.
pub fn validate_reaches(reach_lines: &[ReachLineInfo]) -> (r: bool)
    ensures
        r == reaches_accepted(reach_lines@),
{
    let n = reach_lines.len();
    let mut st = ReachState::Start;
    let mut i: usize = 0;
    while i < n
        invariant
            0 <= i <= n == reach_lines@.len(),
            st == run_steps(reach_lines@.subrange(0, i as int)),
        decreases n - i,
    {
        let ev = reach_lines[i];
        st = match (st, ev) {
            (_, ReachLineInfo::Never) => ReachState::Rejected,
            (ReachState::Start, ReachLineInfo::Nth(k)) => if k == 0 {
                ReachState::SeenNth(0)
            } else {
                ReachState::Rejected
            },
            (ReachState::Start, ReachLineInfo::Last) => ReachState::SeenLast,
            (ReachState::SeenNth(k), ReachLineInfo::Nth(j)) => if k < u16::MAX && j == k + 1 {
                ReachState::SeenNth(j)
            } else {
                ReachState::Rejected
            },
            (ReachState::SeenNth(_), ReachLineInfo::Last) => ReachState::SeenLast,
            (ReachState::SeenLast, _) => ReachState::Rejected,
            (ReachState::Rejected, _) => ReachState::Rejected,
        };
        proof {
            let t = reach_lines@.subrange(0, i + 1);
            assert(t.drop_last() =~= reach_lines@.subrange(0, i as int));
            assert(t.last() == reach_lines@[i as int]);
        }
        i = i + 1;
    }
    proof {
        assert(reach_lines@.subrange(0, n as int) =~= reach_lines@);
    }
    match st {
        ReachState::SeenLast => true,
        _ => false,
    }
}

/// The shape of an accepted sequence: non-empty, closed by `Last`, and
/// before it exactly the numbered checkpoints counting up from zero.
pub open spec fn accepted_shape(s: Seq<ReachLineInfo>) -> bool {
    &&& s.len() >= 1
    &&& s.last() == ReachLineInfo::Last
    &&& s.len() - 1 <= u16::MAX + 1
    &&& forall|i: int| 0 <= i < s.len() - 1 ==> s[i] == ReachLineInfo::Nth(i as u16)
}

/// The shape of a run the sequencer is still counting: exactly the numbered
/// checkpoints from zero, at least one of them.
pub open spec fn counting_shape(s: Seq<ReachLineInfo>) -> bool {
    &&& 1 <= s.len() <= u16::MAX + 1
    &&& forall|i: int| 0 <= i < s.len() ==> s[i] == ReachLineInfo::Nth(i as u16)
}

/// What each reachable sequencer state says about the consumed sequence.
pub proof fn lemma_run_steps_characterize(s: Seq<ReachLineInfo>)
    ensures
        (run_steps(s) == ReachState::Start) <==> s.len() == 0,
        (run_steps(s) is SeenNth) <==> counting_shape(s),
        (run_steps(s) is SeenNth) ==> run_steps(s) == ReachState::SeenNth((s.len() - 1) as u16),
        (run_steps(s) == ReachState::SeenLast) <==> accepted_shape(s),
    decreases s.len(),
{
    if s.len() > 0 {
        let t = s.drop_last();
        let e = s.last();
        lemma_run_steps_characterize(t);
        assert forall|i: int| 0 <= i < s.len() - 1 implies s[i] == t[i] by {}
        if counting_shape(s) {
            if s.len() == 1 {
                assert(s[0] == ReachLineInfo::Nth(0));
            } else {
                assert(counting_shape(t));
            }
        }
        if accepted_shape(s) {
            if s.len() > 1 {
                assert(counting_shape(t));
            }
        }
    }
}

/// The sequencer accepts exactly the sequences `Nth(0), Nth(1), …, Nth(n),
/// Last` and the bare sequence `Last`; it rejects the empty sequence, any
/// sequence containing `Never`, any gap, repeat or out-of-order arrival in
/// the numbered run, and anything after `Last`.
pub proof fn lemma_reaches_accepted_iff(s: Seq<ReachLineInfo>)
    ensures
        reaches_accepted(s) <==> accepted_shape(s),
{
    lemma_run_steps_characterize(s);
}

/// The probe line announcing that the numbered checkpoint was reached.
pub fn nth(nth_num: u16) -> (r: String)
    ensures
        r@ == encode_spec(reach_payload_spec(ReachLineInfo::Nth(nth_num))),
{
    let payload = ReachLineInfo::Nth(nth_num).payload_string();
    generate_probe(payload.as_str())
}

/// The probe line announcing that the final checkpoint was reached.
pub fn last() -> (r: String)
    ensures
        r@ == encode_spec(reach_payload_spec(ReachLineInfo::Last)),
{
    let payload = ReachLineInfo::Last.payload_string();
    generate_probe(payload.as_str())
}

/// The probe line announcing that a forbidden point was reached.
pub fn never() -> (r: String)
    ensures
        r@ == encode_spec(reach_payload_spec(ReachLineInfo::Never)),
{
    let payload = ReachLineInfo::Never.payload_string();
    generate_probe(payload.as_str())
}

} // verus!
