//! Characters and strings: which characters are whitespace, the lower-case
//! form of ASCII letters, and equality of strings, exact and up to ASCII
//! case.
//!
//! Specifications are stated over `Seq<char>`, the view of `str` and `String`.

use vstd::prelude::*;

verus! {

/// The characters Rust's `char::is_whitespace` accepts (Unicode `White_Space`).
pub open spec fn is_whitespace(c: char) -> bool {
    let n = c as u32;
    (0x09 <= n <= 0x0D) || n == 0x20 || n == 0x85 || n == 0xA0 || n == 0x1680 || (0x2000 <= n
        <= 0x200A) || n == 0x2028 || n == 0x2029 || n == 0x202F || n == 0x205F || n == 0x3000
}

/// Executable test for [`is_whitespace`].
pub fn char_is_whitespace(c: char) -> (b: bool)
    ensures
        b == is_whitespace(c),
{
    let n: u32 = c as u32;
    (0x09 <= n && n <= 0x0D) || n == 0x20 || n == 0x85 || n == 0xA0 || n == 0x1680 || (0x2000 <= n
        && n <= 0x200A) || n == 0x2028 || n == 0x2029 || n == 0x202F || n == 0x205F || n == 0x3000
}

/// Lower-case form of an ASCII letter; every other character is left as it is.
pub open spec fn ascii_lower(c: char) -> char {
    if 'A' <= c && c <= 'Z' {
        ((c as u8) + 32) as char
    } else {
        c
    }
}

/// Executable form of [`ascii_lower`].
pub fn to_ascii_lower(c: char) -> (l: char)
    ensures
        l == ascii_lower(c),
{
    if 'A' <= c && c <= 'Z' {
        let b: u8 = c as u8;
        (b + 32) as char
    } else {
        c
    }
}

/// A string with every ASCII letter in lower case.
pub open spec fn fold_case(s: Seq<char>) -> Seq<char> {
    s.map_values(|c: char| ascii_lower(c))
}

/// Equality of two strings up to the case of ASCII letters.
pub open spec fn eq_ignore_ascii_case(a: Seq<char>, b: Seq<char>) -> bool {
    fold_case(a) == fold_case(b)
}

/// Two strings are equal up to ASCII case exactly when they have the same
/// length and agree, position by position, after lower-casing.
pub proof fn lemma_eq_ignore_ascii_case_pointwise(a: Seq<char>, b: Seq<char>)
    ensures
        eq_ignore_ascii_case(a, b) <==> (a.len() == b.len() && forall|i: int|
            0 <= i < a.len() ==> ascii_lower(a[i]) == ascii_lower(b[i])),
{
    if eq_ignore_ascii_case(a, b) {
        assert(fold_case(a).len() == fold_case(b).len());
        assert forall|i: int| 0 <= i < a.len() implies ascii_lower(a[i]) == ascii_lower(b[i]) by {
            assert(fold_case(a)[i] == fold_case(b)[i]);
        }
    }
    if a.len() == b.len() && forall|i: int|
        0 <= i < a.len() ==> ascii_lower(a[i]) == ascii_lower(b[i]) {
        assert(fold_case(a) =~= fold_case(b));
    }
}

/// The characters of a string slice, in order.
pub fn to_chars(s: &str) -> (chars: Vec<char>)
    ensures
        chars@ == s@,
{
    let mut chars: Vec<char> = Vec::new();
    for c in it: s.chars()
        invariant
            it.seq() == s@,
            chars@ == s@.take(it.index() as int),
    {
        chars.push(c);
    }
    chars
}

/// The characters of a string slice with ASCII letters in lower case.
pub fn fold_ascii_case(s: &str) -> (folded: Vec<char>)
    ensures
        folded@ == fold_case(s@),
{
    let mut folded: Vec<char> = Vec::new();
    for c in it: s.chars()
        invariant
            it.seq() == s@,
            folded@ == fold_case(s@.take(it.index() as int)),
    {
        folded.push(to_ascii_lower(c));
        assert(folded@ =~= fold_case(s@.take(it.index() + 1)));
    }
    assert(s@.take(s@.len() as int) =~= s@);
    folded
}

/// Compares a string slice, optionally case-folded, with expected characters.
fn scan_equals(candidate: &str, expected: &Vec<char>, fold: bool) -> (same: bool)
    ensures
        same == ((if fold {
            fold_case(candidate@)
        } else {
            candidate@
        }) == expected@),
{
    let mut same = true;
    let mut i: usize = 0;
    for c in it: candidate.chars()
        invariant
            it.seq() == candidate@,
            same ==> i == it.index(),
            same ==> i <= expected.len(),
            same ==> forall|j: int|
                0 <= j < i ==> expected[j] == (if fold {
                    ascii_lower(candidate@[j])
                } else {
                    candidate@[j]
                }),
            !same ==> (if fold {
                fold_case(candidate@)
            } else {
                candidate@
            }) != expected@,
    {
        if same {
            let seen = if fold {
                to_ascii_lower(c)
            } else {
                c
            };
            if i < expected.len() && expected[i] == seen {
                i = i + 1;
            } else {
                same = false;
                proof {
                    let lhs = if fold {
                        fold_case(candidate@)
                    } else {
                        candidate@
                    };
                    if lhs == expected@ {
                        assert(lhs[i as int] == expected@[i as int]);
                    }
                }
            }
        }
    }
    if same && i == expected.len() {
        proof {
            let lhs = if fold {
                fold_case(candidate@)
            } else {
                candidate@
            };
            assert(lhs =~= expected@);
        }
        true
    } else {
        false
    }
}

/// Exact equality of two string slices.
pub fn str_equals(a: &str, b: &str) -> (same: bool)
    ensures
        same == (a@ == b@),
{
    let expected = to_chars(b);
    scan_equals(a, &expected, false)
}

/// Whether `candidate` equals, up to ASCII case, the string that `folded` is
/// the case-folded form of.
pub fn eq_folded(candidate: &str, folded: &Vec<char>) -> (same: bool)
    ensures
        same == (fold_case(candidate@) == folded@),
{
    scan_equals(candidate, folded, true)
}

/// Equality of two string slices up to ASCII case.
pub fn str_eq_ignore_ascii_case(a: &str, b: &str) -> (same: bool)
    ensures
        same == eq_ignore_ascii_case(a@, b@),
{
    let folded = fold_ascii_case(b);
    eq_folded(a, &folded)
}

} // verus!
