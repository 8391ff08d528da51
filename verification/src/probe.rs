//! The probe codec: frames a structured payload inside an arbitrary text
//! line so that it can share a byte stream with free-form log output.
//!
//! The encoded form is `payload ++ "_" ++ <decimal length of payload> ++
//! MARKER`, where the marker is a fixed token chosen to have negligible
//! probability of natural occurrence in log output. Decoding strips the
//! trailing marker, splits on the last underscore to recover the decimal
//! length, then takes exactly that many trailing characters as payload and
//! returns everything before them as the line's prefix. The length is
//! authoritative, so payloads containing underscores or digits round-trip.
//! Lengths here count characters.

use vstd::prelude::*;

use crate::digits::{
    all_digits, decimal_digits, digits_value, is_digit_char, lemma_decimal_digits_are_digits,
    lemma_decimal_digits_value, parse_u64_digits, u64_to_dec_string,
};

verus! {

/// The fixed marker token that closes every probe frame.
pub open spec fn probe_marker() -> Seq<char> {
    "353887f6-a130-11eb-aad1-54b203047ebd"@
}

/// The marker, as a borrowed string.
pub fn probe_marker_str() -> (r: &'static str)
    ensures
        r@ == probe_marker(),
{
    "353887f6-a130-11eb-aad1-54b203047ebd"
}

/// The marker is 36 characters long and contains no underscore.
pub proof fn lemma_marker_facts()
    ensures
        probe_marker().len() == 36,
        forall|i: int| 0 <= i < 36 ==> probe_marker()[i] != '_',
{
    reveal_strlit("353887f6-a130-11eb-aad1-54b203047ebd");
}

/// The encoded form of a payload.
pub open spec fn encode_spec(payload: Seq<char>) -> Seq<char> {
    payload + seq!['_'] + decimal_digits(payload.len()) + probe_marker()
}

/// The line's final 36 characters are exactly the marker.
pub open spec fn ends_with_marker(line: Seq<char>) -> bool {
    line.len() >= 36 && line.subrange(line.len() - 36, line.len() as int) == probe_marker()
}

/// The line with the trailing marker removed.
pub open spec fn strip_marker(line: Seq<char>) -> Seq<char> {
    line.subrange(0, line.len() - 36)
}

/// The index of the last underscore in `s`, or -1 if there is none.
pub open spec fn last_underscore(s: Seq<char>) -> int
    decreases s.len(),
{
    if s.len() == 0 {
        -1
    } else if s.last() == '_' {
        s.len() - 1
    } else {
        last_underscore(s.drop_last())
    }
}

/// A stripped line is well framed when it has an underscore, a non-empty
/// run of digits follows the last one, and the length those digits spell
/// fits inside what precedes the underscore.
pub open spec fn well_framed(s: Seq<char>) -> bool {
    let u = last_underscore(s);
    u >= 0 && u + 1 < s.len() && all_digits(s.subrange(u + 1, s.len() as int))
        && digits_value(s.subrange(u + 1, s.len() as int)) <= u
}

/// The payload of a well-framed stripped line: the declared number of
/// characters just before the last underscore.
pub open spec fn frame_payload(s: Seq<char>) -> Seq<char> {
    let u = last_underscore(s);
    let v = digits_value(s.subrange(u + 1, s.len() as int));
    s.subrange(u - v, u)
}

/// The prefix of a well-framed stripped line: everything before the payload.
pub open spec fn frame_prefix(s: Seq<char>) -> Seq<char> {
    let u = last_underscore(s);
    let v = digits_value(s.subrange(u + 1, s.len() as int));
    s.subrange(0, u - v)
}

/// What one line of text holds: no frame at all, a frame whose interior is
/// malformed (which only a bug in the emitter could produce), or a decoded
/// prefix and payload.
pub enum ProbeDecode {
    /// The line does not end with the marker; it is ordinary text.
    NoMarker,
    /// The line ends with the marker but its interior is not well framed.
    BadFrame,
    /// A well-formed frame: the text before the frame, and the payload.
    Decoded { prefix: String, payload: String },
}

/// There is no underscore at or after position `j` exactly when the last
/// underscore sits below `j`.
proof fn lemma_last_underscore_below(s: Seq<char>, j: int)
    requires
        0 <= j <= s.len(),
        forall|i: int| j <= i < s.len() ==> s[i] != '_',
    ensures
        last_underscore(s) < j,
    decreases s.len(),
{
    if s.len() != 0 && s.last() != '_' {
        if j == s.len() {
            lemma_last_underscore_below(s.drop_last(), j - 1);
        } else {
            lemma_last_underscore_below(s.drop_last(), j);
        }
    }
}

/// An underscore at `j` with none after it pins the last underscore to `j`.
proof fn lemma_last_underscore_at(s: Seq<char>, j: int)
    requires
        0 <= j < s.len(),
        s[j] == '_',
        forall|i: int| j < i < s.len() ==> s[i] != '_',
    ensures
        last_underscore(s) == j,
    decreases s.len(),
{
    if j == s.len() - 1 {
    } else {
        lemma_last_underscore_at(s.drop_last(), j);
    }
}

/// Encodes a payload into a probe frame ready to end a stderr line.
pub fn generate_probe(content: &str) -> (r: String)
    ensures
        r@ == encode_spec(content@),
{
    let len = content.unicode_len();
    let digits = u64_to_dec_string(len as u64);
    let mut s = String::from_str(content);
    s.append("_");
    s.append(digits.as_str());
    s.append(probe_marker_str());
    proof {
        reveal_strlit("_");
        assert("_"@ =~= seq!['_']);
        assert(s@ =~= encode_spec(content@));
    }
    s
}

/// Decodes one line of text against the probe framing.
pub fn parse_probe(line: &str) -> (r: ProbeDecode)
    ensures
        ({
            let s = strip_marker(line@);
            match r {
                ProbeDecode::NoMarker => !ends_with_marker(line@),
                ProbeDecode::BadFrame => ends_with_marker(line@) && !well_framed(s),
                ProbeDecode::Decoded { prefix, payload } => ends_with_marker(line@)
                    && well_framed(s) && prefix@ == frame_prefix(s) && payload@
                    == frame_payload(s),
            }
        }),
{
    let n = line.unicode_len();
    if n < 36 {
        return ProbeDecode::NoMarker;
    }
    let tail = line.substring_char(n - 36, n);
    let marker = String::from_str(probe_marker_str());
    if !String::from_str(tail).eq(&marker) {
        return ProbeDecode::NoMarker;
    }
    assert(ends_with_marker(line@));
    let stripped = line.substring_char(0, n - 36);
    let m = n - 36;
    assert(stripped@ =~= strip_marker(line@));

    // Scan backwards for the last underscore.
    let mut j: usize = m;
    let mut found: bool = false;
    while j > 0 && !found
        invariant
            0 <= j <= m == stripped@.len(),
            found ==> j < m && stripped@[j as int] == '_',
            forall|i: int| (if found { j + 1 } else { j as int }) <= i < m ==> stripped@[i]
                != '_',
        decreases j + (if found { 0int } else { 1int }),
    {
        if stripped.get_char(j - 1) == '_' {
            found = true;
        }
        j = j - 1;
    }
    if !found {
        proof {
            lemma_last_underscore_below(stripped@, 0);
        }
        return ProbeDecode::BadFrame;
    }
    let u = j;
    proof {
        lemma_last_underscore_at(stripped@, u as int);
    }

    // The declared payload length follows the underscore.
    let len_str = stripped.substring_char(u + 1, m);
    assert(len_str@ =~= stripped@.subrange(u + 1, m as int));
    let v = match parse_u64_digits(len_str) {
        None => {
            proof {
                if digits_value(len_str@) > u64::MAX {
                    assert(digits_value(len_str@) > u as int);
                }
            }
            return ProbeDecode::BadFrame;
        },
        Some(v) => v,
    };
    if v > u as u64 {
        return ProbeDecode::BadFrame;
    }
    let vv = v as usize;
    assert(well_framed(stripped@));
    let payload = String::from_str(stripped.substring_char(u - vv, u));
    let prefix = String::from_str(stripped.substring_char(0, u - vv));
    assert(payload@ == frame_payload(stripped@));
    assert(prefix@ == frame_prefix(stripped@));
    ProbeDecode::Decoded { prefix, payload }
}

/// The probe round trip: a payload framed by `encode_spec` and appended to
/// any line prefix decodes back to exactly that prefix and payload. This
/// holds for empty payloads, empty prefixes, and payloads that themselves
/// contain digits or underscores, because the decoder trusts the declared
/// length, not the delimiter position.
pub proof fn lemma_probe_round_trip(q: Seq<char>, p: Seq<char>)
    requires
        !ends_with_marker(q),
    ensures
        ends_with_marker(q + encode_spec(p)),
        well_framed(strip_marker(q + encode_spec(p))),
        frame_prefix(strip_marker(q + encode_spec(p))) == q,
        frame_payload(strip_marker(q + encode_spec(p))) == p,
{
    let line = q + encode_spec(p);
    let d = decimal_digits(p.len());
    lemma_marker_facts();
    lemma_decimal_digits_are_digits(p.len());
    lemma_decimal_digits_value(p.len());
    assert(line.len() == q.len() + p.len() + 1 + d.len() + 36);
    assert(line.subrange(line.len() - 36, line.len() as int) =~= probe_marker());
    let s = strip_marker(line);
    assert(s =~= q + p + seq!['_'] + d);
    let j: int = (q.len() + p.len()) as int;
    assert(s[j as int] == '_');
    assert forall|i: int| j < i < s.len() implies s[i] != '_' by {
        assert(s[i] == d[i - (j + 1)]);
        assert(is_digit_char(d[i - (j + 1)]));
    }
    lemma_last_underscore_at(s, j as int);
    assert(s.subrange(j + 1, s.len() as int) =~= d);
    assert(digits_value(s.subrange(j + 1, s.len() as int)) == p.len());
    assert(p.len() <= j);
    assert(well_framed(s));
    assert(frame_payload(s) =~= p);
    assert(frame_prefix(s) =~= q);
}

} // verus!
