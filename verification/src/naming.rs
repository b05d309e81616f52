//! The naming convention of compiled test scripts: a stem without hyphens,
//! a hyphen, a hash in lowercase hexadecimal, and the extension `.js`.

use vstd::prelude::*;
use crate::text::chars_of;

verus! {

/// A lowercase hexadecimal digit.
pub open spec fn is_hex_digit(c: char) -> bool {
    ('0' <= c && c <= '9') || ('a' <= c && c <= 'f')
}

/// `stem` is not empty and holds no hyphen; `hash` is not empty and holds
/// lowercase hexadecimal digits only.
pub open spec fn well_formed_parts(stem: Seq<char>, hash: Seq<char>) -> bool {
    &&& stem.len() > 0
    &&& forall|i: int| 0 <= i < stem.len() ==> stem[i] != '-'
    &&& hash.len() > 0
    &&& forall|i: int| 0 <= i < hash.len() ==> is_hex_digit(#[trigger] hash[i])
}

/// The file name made of `stem` and `hash`.
pub open spec fn script_name(stem: Seq<char>, hash: Seq<char>) -> Seq<char> {
    stem + seq!['-'] + hash + seq!['.', 'j', 's']
}

/// `name` follows the convention: it is `stem-hash.js` for some well-formed
/// stem and hash.
pub open spec fn is_test_js_name(name: Seq<char>) -> bool {
    exists|stem: Seq<char>, hash: Seq<char>|
        well_formed_parts(stem, hash) && name == #[trigger] script_name(stem, hash)
}

/// The parts of a conforming name are fixed by its first hyphen.
proof fn lemma_parts_determined(name: Seq<char>, stem: Seq<char>, hash: Seq<char>, k: int)
    requires
        well_formed_parts(stem, hash),
        name == script_name(stem, hash),
        0 <= k <= name.len(),
        forall|i: int| 0 <= i < k ==> name[i] != '-',
        k < name.len() ==> name[k] == '-',
    ensures
        k == stem.len(),
        name.len() == k + hash.len() + 4,
        forall|i: int| 0 <= i < hash.len() ==> name[k + 1 + i] == hash[i],
        name[name.len() - 3] == '.',
        name[name.len() - 2] == 'j',
        name[name.len() - 1] == 's',
{
    let m = stem.len() as int;
    assert(name[m] == '-');
    if k < m {
        assert(name[k] == stem[k]);
    }
    assert forall|i: int| 0 <= i < hash.len() implies name[k + 1 + i] == hash[i] by {
        assert(name[m + 1 + i] == hash[i]);
    }
}

/// Whether `c` is a lowercase hexadecimal digit.
pub fn hex_digit(c: char) -> (r: bool)
    ensures
        r == is_hex_digit(c),
{
    ('0' <= c && c <= '9') || ('a' <= c && c <= 'f')
}

/// Whether a file name follows the naming convention of compiled test scripts.
pub fn is_test_js(name: &str) -> (r: bool)
    ensures
        r == is_test_js_name(name@),
{
    let letters = chars_of(name);
    let n: usize = letters.len();
    let mut k: usize = 0;
    while k < n && letters[k] != '-'
        invariant
            k <= n,
            n == letters.len(),
            forall|i: int| 0 <= i < k ==> letters@[i] != '-',
        decreases n - k,
    {
        k = k + 1;
    }
    proof {
        if is_test_js_name(name@) {
            let (stem, hash) = choose|stem: Seq<char>, hash: Seq<char>|
                well_formed_parts(stem, hash) && name@ == #[trigger] script_name(stem, hash);
            lemma_parts_determined(name@, stem, hash, k as int);
        }
    }
    if k == 0 || n - k < 5 {
        return false;
    }
    if letters[n - 3] != '.' || letters[n - 2] != 'j' || letters[n - 1] != 's' {
        return false;
    }
    let mut j: usize = k + 1;
    while j < n - 3
        invariant
            k + 1 <= j <= n - 3,
            n == letters.len(),
            letters@ == name@,
            forall|i: int| k < i < j ==> is_hex_digit(letters@[i]),
            is_test_js_name(name@) ==> forall|i: int| k < i < n - 3 ==> is_hex_digit(name@[i]),
        decreases n - j,
    {
        if !hex_digit(letters[j]) {
            return false;
        }
        j = j + 1;
    }
    proof {
        let stem = name@.subrange(0, k as int);
        let hash = name@.subrange(k + 1, n - 3);
        assert(well_formed_parts(stem, hash));
        assert(name@ =~= script_name(stem, hash));
    }
    true
}

} // verus!
