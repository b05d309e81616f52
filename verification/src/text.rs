//! Text helpers shared by the stages: characters of a string, joining of
//! command words and path components, decimal rendering, and the order in
//! which paths are compared.

use vstd::prelude::*;

verus! {

/// The characters of `s`, in order.
pub fn chars_of(s: &str) -> (v: Vec<char>)
    ensures
        v@ == s@,
{
    let mut v: Vec<char> = Vec::new();
    for c in it: s.chars()
        invariant
            it.seq() == s@,
            v@ == it.seq().take(it.index()),
    {
        v.push(c);
    }
    v
}

/// The views of a list of strings.
pub open spec fn views(words: Seq<String>) -> Seq<Seq<char>> {
    Seq::new(words.len(), |i: int| words[i]@)
}

/// `words` with one space between neighbours.
pub open spec fn spaced(words: Seq<Seq<char>>) -> Seq<char>
    decreases words.len(),
{
    if words.len() == 0 {
        Seq::empty()
    } else if words.len() == 1 {
        words[0]
    } else {
        spaced(words.drop_last()) + seq![' '] + words.last()
    }
}

/// Joins `words` with single spaces.
pub fn join_words(words: &Vec<String>) -> (line: String)
    ensures
        line@ == spaced(views(words@)),
{
    let mut line = String::new();
    let mut i: usize = 0;
    while i < words.len()
        invariant
            i <= words.len(),
            line@ == spaced(views(words@).take(i as int)),
        decreases words.len() - i,
    {
        proof {
            let next = views(words@).take(i + 1);
            assert(next.drop_last() == views(words@).take(i as int));
            assert(next.last() == words@[i as int]@);
        }
        if i > 0 {
            line.append(" ");
            proof {
                reveal_strlit(" ");
                assert(" "@ == seq![' ']);
            }
        }
        line.append(words[i].as_str());
        i = i + 1;
    }
    proof {
        assert(views(words@).take(words.len() as int) == views(words@));
    }
    line
}

/// A program and its arguments as one line.
pub open spec fn command_line_of(program: Seq<char>, args: Seq<Seq<char>>) -> Seq<char> {
    program + seq![' '] + spaced(args)
}

/// The line `program arg1 arg2 ...` that names an invocation in messages.
pub fn command_line(program: &str, args: &Vec<String>) -> (line: String)
    ensures
        line@ == command_line_of(program@, views(args@)),
{
    let mut line = program.to_owned();
    line.append(" ");
    proof {
        reveal_strlit(" ");
        assert(" "@ == seq![' ']);
    }
    let tail = join_words(args);
    line.append(tail.as_str());
    line
}

/// `name` resolved against the directory `base`: `name` itself where it starts
/// at the root or `base` is empty, otherwise `base` extended by `name`, with
/// `/` between the two unless `base` already ends in one.
pub open spec fn joined_path(base: Seq<char>, name: Seq<char>) -> Seq<char> {
    if base.len() == 0 || (name.len() > 0 && name[0] == '/') {
        name
    } else if base.last() == '/' {
        base + name
    } else {
        base + seq!['/'] + name
    }
}

/// The path of `name` below the directory `base`.
pub fn join_path(base: &str, name: &str) -> (path: String)
    ensures
        path@ == joined_path(base@, name@),
{
    let letters = chars_of(base);
    let first = chars_of(name);
    if letters.len() == 0 || (first.len() > 0 && first[0] == '/') {
        return name.to_owned();
    }
    let mut path = base.to_owned();
    if letters[letters.len() - 1] != '/' {
        path.append("/");
        proof {
            reveal_strlit("/");
            assert("/"@ == seq!['/']);
        }
    }
    path.append(name);
    path
}

/// The index of the last `/` of `path`, or -1 where it has none.
pub open spec fn last_slash(path: Seq<char>) -> int
    decreases path.len(),
{
    if path.len() == 0 {
        -1
    } else if path.last() == '/' {
        path.len() - 1
    } else {
        last_slash(path.drop_last())
    }
}

/// The directory that holds `path`, read off its text: what stands before
/// its last `/`. A path without `/` lies in the empty directory; one whose
/// only `/` stands first lies in `/`; the empty path and `/` itself lie in
/// none.
pub open spec fn parent_of(path: Seq<char>) -> Option<Seq<char>> {
    let k = last_slash(path);
    if path.len() == 0 {
        None
    } else if k < 0 {
        Some(Seq::empty())
    } else if k == 0 {
        if path.len() == 1 {
            None
        } else {
            Some(seq!['/'])
        }
    } else {
        Some(path.subrange(0, k))
    }
}

/// The directory that holds `path`.
pub fn parent_dir(path: &str) -> (parent: Option<String>)
    ensures
        match parent {
            Some(dir) => parent_of(path@) == Some(dir@),
            None => parent_of(path@) is None,
        },
{
    let letters = chars_of(path);
    let n: usize = letters.len();
    if n == 0 {
        return None;
    }
    let mut k: usize = n;
    proof {
        assert(path@.take(n as int) == path@);
    }
    while k > 0 && letters[k - 1] != '/'
        invariant
            k <= n,
            n == letters.len(),
            letters@ == path@,
            last_slash(path@) == last_slash(path@.take(k as int)),
        decreases k,
    {
        proof {
            assert(path@.take(k as int).drop_last() == path@.take(k - 1));
        }
        k = k - 1;
    }
    if k == 0 {
        return Some(String::new());
    }
    proof {
        assert(path@.take(k as int).last() == '/');
    }
    if k == 1 {
        if n == 1 {
            return None;
        }
        proof {
            reveal_strlit("/");
            assert("/"@ == seq!['/']);
        }
        return Some("/".to_owned());
    }
    Some(path.substring_char(0, k - 1).to_owned())
}

/// The decimal digit that stands for `d`.
pub open spec fn digit_char(d: int) -> char {
    if d == 0 {
        '0'
    } else if d == 1 {
        '1'
    } else if d == 2 {
        '2'
    } else if d == 3 {
        '3'
    } else if d == 4 {
        '4'
    } else if d == 5 {
        '5'
    } else if d == 6 {
        '6'
    } else if d == 7 {
        '7'
    } else if d == 8 {
        '8'
    } else {
        '9'
    }
}

/// `n` in decimal, without leading zeros.
pub open spec fn decimal(n: nat) -> Seq<char>
    decreases n,
{
    if n < 10 {
        seq![digit_char(n as int)]
    } else {
        decimal(n / 10).push(digit_char((n % 10) as int))
    }
}

/// `n` in decimal, with a leading minus sign where it is negative.
pub open spec fn signed_decimal(n: int) -> Seq<char> {
    if n < 0 {
        seq!['-'] + decimal((-n) as nat)
    } else {
        decimal(n as nat)
    }
}

fn digit_text(d: u64) -> (t: &'static str)
    requires
        d < 10,
    ensures
        t@ == seq![digit_char(d as int)],
{
    proof {
        reveal_strlit("0");
        reveal_strlit("1");
        reveal_strlit("2");
        reveal_strlit("3");
        reveal_strlit("4");
        reveal_strlit("5");
        reveal_strlit("6");
        reveal_strlit("7");
        reveal_strlit("8");
        reveal_strlit("9");
    }
    let t = if d == 0 {
        "0"
    } else if d == 1 {
        "1"
    } else if d == 2 {
        "2"
    } else if d == 3 {
        "3"
    } else if d == 4 {
        "4"
    } else if d == 5 {
        "5"
    } else if d == 6 {
        "6"
    } else if d == 7 {
        "7"
    } else if d == 8 {
        "8"
    } else {
        "9"
    };
    assert(t@ =~= seq![digit_char(d as int)]);
    t
}

fn append_decimal(out: &mut String, n: u64)
    ensures
        final(out)@ == old(out)@ + decimal(n as nat),
    decreases n,
{
    if n >= 10 {
        append_decimal(out, n / 10);
    }
    out.append(digit_text(n % 10));
}

/// Renders an exit status as decimal text.
pub fn render_status(status: i32) -> (text: String)
    ensures
        text@ == signed_decimal(status as int),
{
    let mut text = String::new();
    let wide: i64 = status as i64;
    if wide < 0 {
        text.append("-");
        proof {
            reveal_strlit("-");
            assert("-"@ == seq!['-']);
        }
        append_decimal(&mut text, (0 - wide) as u64);
    } else {
        append_decimal(&mut text, wide as u64);
    }
    text
}

/// Lexicographic order by code point: `a` comes no later than `b`.
pub open spec fn lex_le(a: Seq<char>, b: Seq<char>) -> bool
    decreases a.len(),
{
    if a.len() == 0 {
        true
    } else if b.len() == 0 {
        false
    } else if a[0] != b[0] {
        a[0] < b[0]
    } else {
        lex_le(a.drop_first(), b.drop_first())
    }
}

/// Every sequence comes no later than itself.
pub proof fn lemma_lex_le_reflexive(a: Seq<char>)
    ensures
        lex_le(a, a),
    decreases a.len(),
{
    if a.len() > 0 {
        lemma_lex_le_reflexive(a.drop_first());
    }
}

/// Of two sequences one comes no later than the other.
pub proof fn lemma_lex_le_total(a: Seq<char>, b: Seq<char>)
    ensures
        lex_le(a, b) || lex_le(b, a),
    decreases a.len(),
{
    if a.len() > 0 && b.len() > 0 {
        if a[0] == b[0] {
            lemma_lex_le_total(a.drop_first(), b.drop_first());
        }
    }
}

/// Two sequences that each come no later than the other are equal.
pub proof fn lemma_lex_le_antisymmetric(a: Seq<char>, b: Seq<char>)
    requires
        lex_le(a, b),
        lex_le(b, a),
    ensures
        a == b,
    decreases a.len(),
{
    if a.len() == 0 {
        assert(b.len() == 0);
        assert(a =~= b);
    } else {
        assert(b.len() > 0);
        assert(a[0] == b[0]);
        lemma_lex_le_antisymmetric(a.drop_first(), b.drop_first());
        assert(a =~= seq![a[0]] + a.drop_first());
        assert(b =~= seq![b[0]] + b.drop_first());
    }
}

/// The order is transitive.
pub proof fn lemma_lex_le_transitive(a: Seq<char>, b: Seq<char>, c: Seq<char>)
    requires
        lex_le(a, b),
        lex_le(b, c),
    ensures
        lex_le(a, c),
    decreases a.len(),
{
    if a.len() > 0 {
        assert(b.len() > 0);
        assert(c.len() > 0);
        if a[0] == b[0] && b[0] == c[0] {
            lemma_lex_le_transitive(a.drop_first(), b.drop_first(), c.drop_first());
        }
    }
}

/// Whether `a` comes no later than `b` in lexicographic order by code point.
pub fn precedes_or_equals(a: &str, b: &str) -> (r: bool)
    ensures
        r == lex_le(a@, b@),
{
    let left = chars_of(a);
    let right = chars_of(b);
    let mut i: usize = 0;
    proof {
        assert(a@.skip(0) == a@);
        assert(b@.skip(0) == b@);
    }
    while i < left.len() && i < right.len()
        invariant
            i <= left.len(),
            i <= right.len(),
            left@ == a@,
            right@ == b@,
            lex_le(a@, b@) == lex_le(a@.skip(i as int), b@.skip(i as int)),
        decreases left.len() - i,
    {
        proof {
            assert(a@.skip(i as int).drop_first() == a@.skip(i + 1));
            assert(b@.skip(i as int).drop_first() == b@.skip(i + 1));
        }
        if left[i] != right[i] {
            assert(a@.skip(i as int)[0] == left@[i as int]);
            assert(b@.skip(i as int)[0] == right@[i as int]);
            return left[i] < right[i];
        }
        i = i + 1;
    }
    left.len() <= right.len()
}

} // verus!
