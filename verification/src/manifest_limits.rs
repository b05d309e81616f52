//! Limits on what is handed to the parser of manifests.
//!
//! The parser of TOML descends once for every level of nesting (for every
//! array and inline table that is open, and for every part of a dotted key
//! and of a table header) and has no limit of its own. A manifest is
//! therefore read once before it is parsed, and the nesting that the parser
//! will meet is measured.
//!
//! The reading follows as much of the grammar as the measure needs:
//! - strings and comments, in which nothing counts: basic strings between
//!   `"` with `\` before an escaped character, literal strings between `'`,
//!   strings over several lines between `"""` or `'''` (closed by three to
//!   five quotes in a row), comments from `#` to the end of the line;
//! - brackets: `[` and `{` open a level, `]` and `}` close one;
//! - keys: a `.` counts where a key can stand, that is at the start of a
//!   line, in a table header, and in an inline table at its start and after
//!   a comma; it does not count in a value, where it belongs to a number;
//! - table headers: each part of a header counts for two levels, because it
//!   may name an array of tables and then means the last element of it. This
//!   is the one place where the measure may exceed what the parser meets.
//!
//! The parser stops at the first character that it cannot take, so up to
//! there this reading and the parser agree.

use vstd::prelude::*;
use crate::text::chars_of;

verus! {

/// The deepest nesting of a manifest that is handed to the parser.
pub const MANIFEST_NESTING_LIMIT: u128 = 64;

/// Where a character of a manifest stands.
#[derive(Clone, Copy, Debug, PartialEq, Eq, Structural)]
pub enum Place {
    /// Outside strings and comments.
    Outside,
    /// In a basic string.
    Basic,
    /// In a basic string, just after `\`.
    BasicEscape,
    /// In a literal string.
    Literal,
    /// In a comment.
    Comment,
    /// In a basic string over several lines.
    Block,
    /// In a basic string over several lines, just after `\`.
    BlockEscape,
    /// In a literal string over several lines.
    LiteralBlock,
}

/// A level of nesting that is open.
#[derive(Clone, Copy, Debug, PartialEq, Eq, Structural)]
pub enum Frame {
    /// An array, or the bracket of a table header.
    Array,
    /// An inline table.
    Table,
    /// A part of a dotted key in an inline table.
    Dot,
}

/// What is known after reading a prefix of a manifest.
pub struct ManifestScan {
    /// Where the prefix ends.
    pub place: Place,
    /// How many `"` in a row have just begun strings: one after the quote
    /// that begins a string, two after an empty string.
    pub open_double: nat,
    /// The same for `'`.
    pub open_single: nat,
    /// How many quotes in a row end the prefix within a string over several
    /// lines.
    pub block_run: nat,
    /// A key can stand here.
    pub in_key: bool,
    /// The levels that are open, innermost last.
    pub frames: Seq<Frame>,
    /// The dots of the key or table header of this line.
    pub key_dots: nat,
    /// The levels of the last table header: two for each of its parts, since
    /// a part may name an array of tables, whose last element it then means.
    pub header_depth: nat,
    /// The brackets that begin the table header of this line, if it is one.
    pub header_brackets: nat,
    /// The greatest nesting so far.
    pub max_nesting: nat,
}

/// What is known before anything is read.
pub open spec fn manifest_start() -> ManifestScan {
    ManifestScan {
        place: Place::Outside,
        open_double: 0,
        open_single: 0,
        block_run: 0,
        in_key: true,
        frames: Seq::empty(),
        key_dots: 0,
        header_depth: 0,
        header_brackets: 0,
        max_nesting: 0,
    }
}

/// A character that ends a comment: any control character but the tab.
pub open spec fn ends_comment(c: char) -> bool {
    c < ' ' && c != '\t'
}

/// Where `c` stands when it is read after a prefix of which `s` is known. A
/// string over several lines has ended where three to five quotes in a row
/// are followed by another character, or five by a sixth; a comment has
/// ended where a control character follows.
pub open spec fn place_of(s: ManifestScan, c: char) -> Place {
    match s.place {
        Place::Block => if (s.block_run >= 3 && c != '"') || (s.block_run >= 5 && c == '"') {
            Place::Outside
        } else {
            Place::Block
        },
        Place::LiteralBlock => if (s.block_run >= 3 && c != '\'') || (s.block_run >= 5 && c
            == '\'') {
            Place::Outside
        } else {
            Place::LiteralBlock
        },
        Place::Comment => if ends_comment(c) {
            Place::Outside
        } else {
            Place::Comment
        },
        place => place,
    }
}

/// Where the character after `c` stands, given that `c` stands at `place`
/// after `open_double` and `open_single` quotes that have just begun strings.
pub open spec fn place_after(place: Place, c: char, open_double: nat, open_single: nat) -> Place {
    match place {
        Place::Outside => {
            if c == '"' {
                if open_double == 2 {
                    Place::Block
                } else {
                    Place::Basic
                }
            } else if c == '\'' {
                if open_single == 2 {
                    Place::LiteralBlock
                } else {
                    Place::Literal
                }
            } else if c == '#' {
                Place::Comment
            } else {
                Place::Outside
            }
        },
        Place::Basic => {
            if c == '"' || c == '\n' {
                Place::Outside
            } else if c == '\\' {
                Place::BasicEscape
            } else {
                Place::Basic
            }
        },
        Place::BasicEscape => Place::Basic,
        Place::Literal => {
            if c == '\'' || c == '\n' {
                Place::Outside
            } else {
                Place::Literal
            }
        },
        Place::Comment => Place::Comment,
        Place::Block => {
            if c == '\\' {
                Place::BlockEscape
            } else {
                Place::Block
            }
        },
        Place::BlockEscape => Place::Block,
        Place::LiteralBlock => Place::LiteralBlock,
    }
}

/// How many `"` in a row have just begun strings once `c` is read at
/// `place`.
pub open spec fn open_double_after(place: Place, c: char, open_double: nat) -> nat {
    if c != '"' {
        0
    } else if place == Place::Outside && open_double != 2 {
        1
    } else if place == Place::Basic && open_double == 1 {
        2
    } else {
        0
    }
}

/// How many `'` in a row have just begun strings once `c` is read at
/// `place`.
pub open spec fn open_single_after(place: Place, c: char, open_single: nat) -> nat {
    if c != '\'' {
        0
    } else if place == Place::Outside && open_single != 2 {
        1
    } else if place == Place::Literal && open_single == 1 {
        2
    } else {
        0
    }
}

/// How many quotes in a row end the prefix within a string over several
/// lines once `c` is read at `place`.
pub open spec fn block_run_after(place: Place, c: char, block_run: nat) -> nat {
    if (place == Place::Block && c == '"') || (place == Place::LiteralBlock && c == '\'') {
        block_run + 1
    } else {
        0
    }
}

/// The levels without the parts of a dotted key that are innermost.
pub open spec fn without_dots(frames: Seq<Frame>) -> Seq<Frame>
    decreases frames.len(),
{
    if frames.len() > 0 && frames.last() == Frame::Dot {
        without_dots(frames.drop_last())
    } else {
        frames
    }
}

/// The levels without the innermost one and the key that led to it.
pub open spec fn closed_one(frames: Seq<Frame>) -> Seq<Frame> {
    let rest = without_dots(frames);
    if rest.len() > 0 {
        rest.drop_last()
    } else {
        rest
    }
}

/// A `.` read here belongs to a key in an inline table.
pub open spec fn dot_nests(s: ManifestScan) -> bool {
    s.in_key && s.frames.len() > 0 && s.frames.last() != Frame::Array
}

/// A `.` read here belongs to the key or the table header of the line.
pub open spec fn dot_counts_for_line(s: ManifestScan) -> bool {
    s.in_key && !(s.frames.len() > 0 && s.frames.last() != Frame::Array)
}

/// The levels that are open once `c` is read outside strings and comments.
pub open spec fn frames_after(s: ManifestScan, c: char) -> Seq<Frame> {
    if c == '[' {
        s.frames.push(Frame::Array)
    } else if c == '{' {
        s.frames.push(Frame::Table)
    } else if c == ']' || c == '}' {
        closed_one(s.frames)
    } else if c == ',' {
        without_dots(s.frames)
    } else if c == '.' && dot_nests(s) {
        s.frames.push(Frame::Dot)
    } else {
        s.frames
    }
}

/// Whether a key can stand after `c`, read outside strings and comments.
pub open spec fn in_key_after(s: ManifestScan, c: char) -> bool {
    if c == '{' {
        true
    } else if c == ']' || c == '}' || c == '=' {
        false
    } else if c == ',' {
        let rest = without_dots(s.frames);
        rest.len() > 0 && rest.last() == Frame::Table
    } else if c == '\n' && s.frames.len() == 0 {
        true
    } else {
        s.in_key
    }
}

/// What is known once `c` is read outside strings and comments, but for
/// where it stands.
pub open spec fn structure_after(s: ManifestScan, c: char) -> ManifestScan {
    let line_ends = c == '\n' && s.frames.len() == 0;
    ManifestScan {
        in_key: in_key_after(s, c),
        frames: frames_after(s, c),
        key_dots: if line_ends {
            0
        } else if c == '.' && dot_counts_for_line(s) {
            s.key_dots + 1
        } else {
            s.key_dots
        },
        header_depth: if line_ends && s.header_brackets > 0 {
            2 * (s.key_dots + 1)
        } else {
            s.header_depth
        },
        header_brackets: if line_ends {
            0
        } else if c == '[' && s.in_key && s.frames.len() == s.header_brackets {
            s.header_brackets + 1
        } else {
            s.header_brackets
        },
        ..s
    }
}

/// The nesting that the parser meets where `s` is known: on the line of a
/// table header, two levels for each part of the header; on other lines the
/// levels of the table header that holds the line, the dots of the key of the
/// line, and the levels that are open.
pub open spec fn nesting(s: ManifestScan) -> nat {
    if s.header_brackets > 0 {
        2 * (s.key_dots + 1)
    } else {
        s.header_depth + s.key_dots + s.frames.len()
    }
}

/// What is known once `c` is read after a prefix of which `s` is known.
pub open spec fn manifest_step(s: ManifestScan, c: char) -> ManifestScan {
    let place = place_of(s, c);
    let ended = place != s.place;
    let open_double = if ended {
        0
    } else {
        s.open_double
    };
    let open_single = if ended {
        0
    } else {
        s.open_single
    };
    let t = if place == Place::Outside {
        structure_after(s, c)
    } else {
        s
    };
    let u = ManifestScan {
        place: place_after(place, c, open_double, open_single),
        open_double: open_double_after(place, c, open_double),
        open_single: open_single_after(place, c, open_single),
        block_run: block_run_after(place, c, s.block_run),
        ..t
    };
    ManifestScan {
        max_nesting: if nesting(u) > s.max_nesting {
            nesting(u)
        } else {
            s.max_nesting
        },
        ..u
    }
}

/// What is known once the whole of `text` is read.
pub open spec fn manifest_scan(text: Seq<char>) -> ManifestScan
    decreases text.len(),
{
    if text.len() == 0 {
        manifest_start()
    } else {
        manifest_step(manifest_scan(text.drop_last()), text.last())
    }
}

/// The manifest may be handed to its parser: its table headers, dotted keys,
/// arrays and inline tables together nest no deeper than the limit.
pub open spec fn manifest_within_limits(text: Seq<char>) -> bool {
    manifest_scan(text).max_nesting <= MANIFEST_NESTING_LIMIT
}

/// No count of a scan exceeds the number of characters read.
pub open spec fn manifest_bounded(s: ManifestScan, n: nat) -> bool {
    &&& s.open_double <= 2
    &&& s.open_single <= 2
    &&& s.block_run <= n
    &&& s.frames.len() <= n
    &&& s.key_dots <= n
    &&& s.header_depth <= 2 * n
    &&& s.header_brackets <= n
    &&& s.key_dots + s.header_brackets <= n
    &&& s.max_nesting <= 4 * n
}

/// The counts of a scan as they are held while a manifest is read.
struct ManifestCounts {
    place: Place,
    open_double: u8,
    open_single: u8,
    block_run: u64,
    in_key: bool,
    frames: Vec<Frame>,
    key_dots: u64,
    header_depth: u128,
    header_brackets: u64,
    max_nesting: u128,
}

impl View for ManifestCounts {
    type V = ManifestScan;

    closed spec fn view(&self) -> ManifestScan {
        ManifestScan {
            place: self.place,
            open_double: self.open_double as nat,
            open_single: self.open_single as nat,
            block_run: self.block_run as nat,
            in_key: self.in_key,
            frames: self.frames@,
            key_dots: self.key_dots as nat,
            header_depth: self.header_depth as nat,
            header_brackets: self.header_brackets as nat,
            max_nesting: self.max_nesting as nat,
        }
    }
}

fn standing(place: Place, block_run: u64, c: char) -> (r: Place)
    ensures
        forall|s: ManifestScan|
            s.place == place && s.block_run == block_run ==> r == #[trigger] place_of(s, c),
{
    match place {
        Place::Block => if (block_run >= 3 && c != '"') || (block_run >= 5 && c == '"') {
            Place::Outside
        } else {
            Place::Block
        },
        Place::LiteralBlock => if (block_run >= 3 && c != '\'') || (block_run >= 5 && c == '\'') {
            Place::Outside
        } else {
            Place::LiteralBlock
        },
        Place::Comment => if c < ' ' && c != '\t' {
            Place::Outside
        } else {
            Place::Comment
        },
        place => place,
    }
}

fn following(place: Place, c: char, open_double: u8, open_single: u8) -> (r: Place)
    ensures
        r == place_after(place, c, open_double as nat, open_single as nat),
{
    match place {
        Place::Outside => {
            if c == '"' {
                if open_double == 2 {
                    Place::Block
                } else {
                    Place::Basic
                }
            } else if c == '\'' {
                if open_single == 2 {
                    Place::LiteralBlock
                } else {
                    Place::Literal
                }
            } else if c == '#' {
                Place::Comment
            } else {
                Place::Outside
            }
        },
        Place::Basic => {
            if c == '"' || c == '\n' {
                Place::Outside
            } else if c == '\\' {
                Place::BasicEscape
            } else {
                Place::Basic
            }
        },
        Place::BasicEscape => Place::Basic,
        Place::Literal => {
            if c == '\'' || c == '\n' {
                Place::Outside
            } else {
                Place::Literal
            }
        },
        Place::Comment => Place::Comment,
        Place::Block => {
            if c == '\\' {
                Place::BlockEscape
            } else {
                Place::Block
            }
        },
        Place::BlockEscape => Place::Block,
        Place::LiteralBlock => Place::LiteralBlock,
    }
}

fn run_after(c: char, quote: char, place: Place, outside: Place, inside: Place, run: u8) -> (r: u8)
    requires
        run <= 2,
    ensures
        r <= 2,
        r as nat == if c != quote {
            0nat
        } else if place == outside && run != 2 {
            1nat
        } else if place == inside && run == 1 {
            2nat
        } else {
            0nat
        },
{
    if c != quote {
        0
    } else if place == outside && run != 2 {
        1
    } else if place == inside && run == 1 {
        2
    } else {
        0
    }
}

fn drop_dots(frames: &mut Vec<Frame>)
    ensures
        final(frames)@ == without_dots(old(frames)@),
{
    while frames.len() > 0 && frames[frames.len() - 1] == Frame::Dot
        invariant
            without_dots(frames@) == without_dots(old(frames)@),
        decreases frames.len(),
    {
        proof {
            assert(frames@.drop_last() == frames@.subrange(0, frames@.len() - 1));
        }
        frames.pop();
    }
}

fn restructure(s: ManifestCounts, c: char, Ghost(n): Ghost<nat>) -> (r: ManifestCounts)
    requires
        manifest_bounded(s@, n),
        n < u64::MAX,
    ensures
        r@ == structure_after(s@, c),
        r@.frames.len() <= n + 1,
        r@.key_dots <= n + 1,
        r@.header_depth <= 2 * (n + 1),
        r@.header_brackets <= n + 1,
        r@.key_dots + r@.header_brackets <= n + 1,
{
    let mut t = s;
    let ghost before = t@;
    let top_level = t.frames.len() == 0;
    let line_ends = c == '\n' && top_level;
    let nests = t.in_key && t.frames.len() > 0 && t.frames[t.frames.len() - 1] != Frame::Array;
    if line_ends {
        if t.header_brackets > 0 {
            t.header_depth = 2 * (t.key_dots as u128 + 1);
        }
        t.key_dots = 0;
        t.header_brackets = 0;
        t.in_key = true;
    } else if c == '[' {
        if t.in_key && t.frames.len() as u64 == t.header_brackets {
            t.header_brackets = t.header_brackets + 1;
        }
        t.frames.push(Frame::Array);
    } else if c == '{' {
        t.frames.push(Frame::Table);
        t.in_key = true;
    } else if c == ']' || c == '}' {
        drop_dots(&mut t.frames);
        if t.frames.len() > 0 {
            proof {
                assert(t.frames@.drop_last() == t.frames@.subrange(0, t.frames@.len() - 1));
            }
            t.frames.pop();
        }
        t.in_key = false;
    } else if c == ',' {
        drop_dots(&mut t.frames);
        t.in_key = t.frames.len() > 0 && t.frames[t.frames.len() - 1] == Frame::Table;
    } else if c == '=' {
        t.in_key = false;
    } else if c == '.' {
        if nests {
            t.frames.push(Frame::Dot);
        } else if t.in_key {
            t.key_dots = t.key_dots + 1;
        }
    }
    proof {
        lemma_without_dots_shorter(before.frames);
        assert(t@.frames =~= frames_after(before, c));
    }
    t
}

/// Leaving parts of keys out makes the levels no more.
proof fn lemma_without_dots_shorter(frames: Seq<Frame>)
    ensures
        without_dots(frames).len() <= frames.len(),
    decreases frames.len(),
{
    if frames.len() > 0 && frames.last() == Frame::Dot {
        lemma_without_dots_shorter(frames.drop_last());
    }
}

fn manifest_advance(s: ManifestCounts, c: char, Ghost(n): Ghost<nat>) -> (r: ManifestCounts)
    requires
        manifest_bounded(s@, n),
        n < u64::MAX,
    ensures
        r@ == manifest_step(s@, c),
        manifest_bounded(r@, n + 1),
{
    let ghost before = s@;
    let place = standing(s.place, s.block_run, c);
    assert(place == place_of(before, c));
    let ended = place != s.place;
    let open_double: u8 = if ended {
        0
    } else {
        s.open_double
    };
    let open_single: u8 = if ended {
        0
    } else {
        s.open_single
    };
    let block_run: u64 = if (place == Place::Block && c == '"') || (place == Place::LiteralBlock
        && c == '\'') {
        s.block_run + 1
    } else {
        0
    };
    let max_before = s.max_nesting;
    let mut t = if place == Place::Outside {
        restructure(s, c, Ghost(n))
    } else {
        s
    };
    t.place = following(place, c, open_double, open_single);
    t.open_double = run_after(c, '"', place, Place::Outside, Place::Basic, open_double);
    t.open_single = run_after(c, '\'', place, Place::Outside, Place::Literal, open_single);
    t.block_run = block_run;
    let frames: usize = t.frames.len();
    let now: u128 = if t.header_brackets > 0 {
        2 * (t.key_dots as u128 + 1)
    } else {
        t.header_depth + t.key_dots as u128 + frames as u128
    };
    t.max_nesting = if now > max_before {
        now
    } else {
        max_before
    };
    t
}

fn manifest_measure(text: &str) -> (r: ManifestCounts)
    ensures
        r@ == manifest_scan(text@),
{
    let letters = chars_of(text);
    let mut counts = ManifestCounts {
        place: Place::Outside,
        open_double: 0,
        open_single: 0,
        block_run: 0,
        in_key: true,
        frames: Vec::new(),
        key_dots: 0,
        header_depth: 0,
        header_brackets: 0,
        max_nesting: 0,
    };
    let mut i: usize = 0;
    proof {
        assert(text@.take(0) =~= Seq::<char>::empty());
        assert(counts@.frames =~= Seq::<Frame>::empty());
    }
    while i < letters.len()
        invariant
            i <= letters.len(),
            letters@ == text@,
            counts@ == manifest_scan(text@.take(i as int)),
            manifest_bounded(counts@, i as nat),
        decreases letters.len() - i,
    {
        proof {
            let next = text@.take(i + 1);
            assert(next.drop_last() =~= text@.take(i as int));
            assert(next.last() == letters@[i as int]);
        }
        counts = manifest_advance(counts, letters[i], Ghost(i as nat));
        i = i + 1;
    }
    proof {
        assert(text@.take(letters.len() as int) =~= text@);
    }
    counts
}

/// The deepest nesting that the parser meets in a manifest.
pub fn manifest_nesting(text: &str) -> (deepest: u128)
    ensures
        deepest == manifest_scan(text@).max_nesting,
{
    let counts = manifest_measure(text);
    counts.max_nesting
}

/// Whether a manifest may be handed to its parser.
pub fn manifest_is_within_limits(text: &str) -> (r: bool)
    ensures
        r == manifest_within_limits(text@),
{
    manifest_nesting(text) <= MANIFEST_NESTING_LIMIT
}

} // verus!
