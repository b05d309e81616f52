//! Limits on what is handed to the parser of reports.
//!
//! The parser of JSON that reads the report of the build tool is sound only
//! on part of its input:
//! - it descends once for every level of nesting and has no limit of its own;
//! - it keeps the keys of the objects that are open in one buffer, and their
//!   places in it in sixteen bits;
//! - after a comma that is followed by `}` it loses track of the object that
//!   it is in;
//! - it computes the value of an exponent with a power function whose
//!   precision is not fixed.
//!
//! A report is therefore read once before it is parsed, following no more of
//! its grammar than where strings begin and end: between `"`, with `\`
//! before an escaped character. The parser stops at the first character
//! that it cannot take, so up to there this reading and the parser agree on
//! what stands in a string.

use vstd::prelude::*;
use vstd::utf8::encode_utf8;
use crate::text::chars_of;

verus! {

/// The deepest nesting of a report that is handed to the parser.
pub const REPORT_NESTING_LIMIT: u64 = 64;

/// The greatest length of a report, in bytes, that is handed to the parser.
pub const REPORT_LENGTH_LIMIT: usize = 65535;

/// Where a character of a report stands.
#[derive(Clone, Copy, Debug, PartialEq, Eq, Structural)]
pub enum ReportPlace {
    /// Outside strings.
    Outside,
    /// In a string.
    Text,
    /// In a string, just after `\`.
    Escape,
}

/// Where the scan stands in what may be the exponent of a number.
#[derive(Clone, Copy, Debug, PartialEq, Eq, Structural)]
pub enum ExponentPhase {
    /// Not in an exponent.
    Idle,
    /// Just after `e` or `E`.
    Marker,
    /// After the marker and a sign.
    Sign,
}

/// What is known after reading a prefix of a report.
pub struct ReportScan {
    /// Where the prefix ends.
    pub place: ReportPlace,
    /// How many brackets are open.
    pub depth: nat,
    /// The greatest `depth` so far.
    pub max_depth: nat,
    /// Where the prefix ends in what may be an exponent.
    pub phase: ExponentPhase,
    /// A digit was read in an exponent.
    pub exponent: bool,
    /// Outside strings, only blanks were read since the last comma.
    pub after_comma: bool,
    /// Outside strings, a comma was followed by blanks and `}`.
    pub trailing_comma: bool,
}

/// What is known before anything is read.
pub open spec fn report_start() -> ReportScan {
    ReportScan {
        place: ReportPlace::Outside,
        depth: 0,
        max_depth: 0,
        phase: ExponentPhase::Idle,
        exponent: false,
        after_comma: false,
        trailing_comma: false,
    }
}

/// A decimal digit.
pub open spec fn is_digit(c: char) -> bool {
    '0' <= c && c <= '9'
}

/// A character that the parser passes over between values.
pub open spec fn is_blank(c: char) -> bool {
    c == ' ' || c == '\n' || c == '\t' || c == '\r'
}

/// What is known once `c` is read outside strings.
pub open spec fn report_step_outside(s: ReportScan, c: char) -> ReportScan {
    let depth = if c == '[' || c == '{' {
        s.depth + 1
    } else if (c == ']' || c == '}') && s.depth > 0 {
        (s.depth - 1) as nat
    } else {
        s.depth
    };
    ReportScan {
        place: if c == '"' {
            ReportPlace::Text
        } else {
            ReportPlace::Outside
        },
        depth,
        max_depth: if depth > s.max_depth {
            depth
        } else {
            s.max_depth
        },
        phase: if c == 'e' || c == 'E' {
            ExponentPhase::Marker
        } else if (c == '+' || c == '-') && s.phase == ExponentPhase::Marker {
            ExponentPhase::Sign
        } else {
            ExponentPhase::Idle
        },
        exponent: s.exponent || (is_digit(c) && s.phase != ExponentPhase::Idle),
        after_comma: c == ',' || (s.after_comma && is_blank(c)),
        trailing_comma: s.trailing_comma || (s.after_comma && c == '}'),
    }
}

/// What is known once `c` is read after a prefix of which `s` is known.
pub open spec fn report_step(s: ReportScan, c: char) -> ReportScan {
    match s.place {
        ReportPlace::Outside => report_step_outside(s, c),
        ReportPlace::Text => ReportScan {
            place: if c == '"' {
                ReportPlace::Outside
            } else if c == '\\' {
                ReportPlace::Escape
            } else {
                ReportPlace::Text
            },
            phase: ExponentPhase::Idle,
            after_comma: false,
            ..s
        },
        ReportPlace::Escape => ReportScan { place: ReportPlace::Text, ..s },
    }
}

/// What is known once the whole of `text` is read.
pub open spec fn report_scan(text: Seq<char>) -> ReportScan
    decreases text.len(),
{
    if text.len() == 0 {
        report_start()
    } else {
        report_step(report_scan(text.drop_last()), text.last())
    }
}

/// The report may be handed to its parser:
/// - it is no longer than the limit, so that the place of every key fits in
///   sixteen bits;
/// - its brackets nest no deeper than the limit;
/// - outside strings no comma is followed by blanks and `}`;
/// - outside strings no `e` or `E`, with or without a sign, is followed by a
///   digit, so that no number in it has an exponent.
pub open spec fn report_within_limits(text: Seq<char>) -> bool {
    &&& encode_utf8(text).len() <= REPORT_LENGTH_LIMIT
    &&& report_scan(text).max_depth <= REPORT_NESTING_LIMIT
    &&& !report_scan(text).trailing_comma
    &&& !report_scan(text).exponent
}

/// The counts of a scan as they are held while a report is read.
struct ReportCounts {
    place: ReportPlace,
    depth: u64,
    max_depth: u64,
    phase: ExponentPhase,
    exponent: bool,
    after_comma: bool,
    trailing_comma: bool,
}

impl View for ReportCounts {
    type V = ReportScan;

    closed spec fn view(&self) -> ReportScan {
        ReportScan {
            place: self.place,
            depth: self.depth as nat,
            max_depth: self.max_depth as nat,
            phase: self.phase,
            exponent: self.exponent,
            after_comma: self.after_comma,
            trailing_comma: self.trailing_comma,
        }
    }
}

fn report_advance(s: ReportCounts, c: char, Ghost(n): Ghost<nat>) -> (r: ReportCounts)
    requires
        s@.depth <= n,
        s@.max_depth <= n,
        n < u64::MAX,
    ensures
        r@ == report_step(s@, c),
        r@.depth <= n + 1,
        r@.max_depth <= n + 1,
{
    match s.place {
        ReportPlace::Outside => {
            let depth: u64 = if c == '[' || c == '{' {
                s.depth + 1
            } else if (c == ']' || c == '}') && s.depth > 0 {
                s.depth - 1
            } else {
                s.depth
            };
            let blank = c == ' ' || c == '\n' || c == '\t' || c == '\r';
            let digit = '0' <= c && c <= '9';
            ReportCounts {
                place: if c == '"' {
                    ReportPlace::Text
                } else {
                    ReportPlace::Outside
                },
                depth,
                max_depth: if depth > s.max_depth {
                    depth
                } else {
                    s.max_depth
                },
                phase: if c == 'e' || c == 'E' {
                    ExponentPhase::Marker
                } else if (c == '+' || c == '-') && s.phase == ExponentPhase::Marker {
                    ExponentPhase::Sign
                } else {
                    ExponentPhase::Idle
                },
                exponent: s.exponent || (digit && s.phase != ExponentPhase::Idle),
                after_comma: c == ',' || (s.after_comma && blank),
                trailing_comma: s.trailing_comma || (s.after_comma && c == '}'),
            }
        },
        ReportPlace::Text => ReportCounts {
            place: if c == '"' {
                ReportPlace::Outside
            } else if c == '\\' {
                ReportPlace::Escape
            } else {
                ReportPlace::Text
            },
            depth: s.depth,
            max_depth: s.max_depth,
            phase: ExponentPhase::Idle,
            exponent: s.exponent,
            after_comma: false,
            trailing_comma: s.trailing_comma,
        },
        ReportPlace::Escape => ReportCounts {
            place: ReportPlace::Text,
            depth: s.depth,
            max_depth: s.max_depth,
            phase: s.phase,
            exponent: s.exponent,
            after_comma: s.after_comma,
            trailing_comma: s.trailing_comma,
        },
    }
}

fn report_measure(text: &str) -> (r: ReportCounts)
    ensures
        r@ == report_scan(text@),
{
    let letters = chars_of(text);
    let mut counts = ReportCounts {
        place: ReportPlace::Outside,
        depth: 0,
        max_depth: 0,
        phase: ExponentPhase::Idle,
        exponent: false,
        after_comma: false,
        trailing_comma: false,
    };
    let mut i: usize = 0;
    proof {
        assert(text@.take(0) =~= Seq::<char>::empty());
    }
    while i < letters.len()
        invariant
            i <= letters.len(),
            letters@ == text@,
            counts@ == report_scan(text@.take(i as int)),
            counts@.depth <= i,
            counts@.max_depth <= i,
        decreases letters.len() - i,
    {
        proof {
            let next = text@.take(i + 1);
            assert(next.drop_last() =~= text@.take(i as int));
            assert(next.last() == letters@[i as int]);
        }
        counts = report_advance(counts, letters[i], Ghost(i as nat));
        i = i + 1;
    }
    proof {
        assert(text@.take(letters.len() as int) =~= text@);
    }
    counts
}

/// The deepest nesting of the brackets of a report.
pub fn report_nesting(text: &str) -> (deepest: u64)
    ensures
        deepest == report_scan(text@).max_depth,
{
    let counts = report_measure(text);
    counts.max_depth
}

/// Whether a report may be handed to its parser.
pub fn report_is_within_limits(text: &str) -> (r: bool)
    ensures
        r == report_within_limits(text@),
{
    let bytes = text.as_bytes_vec();
    if bytes.len() > REPORT_LENGTH_LIMIT {
        return false;
    }
    let counts = report_measure(text);
    counts.max_depth <= REPORT_NESTING_LIMIT && !counts.trailing_comma && !counts.exponent
}

} // verus!
