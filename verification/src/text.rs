//! Character-level helpers: tag and attribute names are compared without regard
//! to the case of ASCII letters.
use vstd::prelude::*;

verus! {

/// The upper-case form of an ASCII letter; any other character is left alone.
pub open spec fn upper_char(c: char) -> char {
    if 'a' <= c && c <= 'z' {
        ((c as u8) - 32) as char
    } else {
        c
    }
}

/// A name with each ASCII letter in upper case.
pub open spec fn upper(s: Seq<char>) -> Seq<char> {
    Seq::new(s.len(), |i: int| upper_char(s[i]))
}

/// Two names match when they differ at most in the case of ASCII letters.
pub open spec fn names_match(a: Seq<char>, b: Seq<char>) -> bool {
    upper(a) == upper(b)
}

/// The upper-case form of an ASCII letter; any other character as it is.
fn to_upper_char(c: char) -> (r: char)
    ensures
        r == upper_char(c),
{
    if 'a' <= c && c <= 'z' {
        ((c as u8) - 32) as char
    } else {
        c
    }
}

/// The characters of a string, one by one.
fn chars_of(s: &str) -> (out: Vec<char>)
    ensures
        out@ == s@,
{
    let mut out: Vec<char> = Vec::new();
    for c in it: s.chars()
        invariant
            it.seq() == s@,
            out@ == s@.take(it.index()),
    {
        out.push(c);
    }
    out
}

/// Whether two names match, the case of ASCII letters set aside.
pub fn same_name(a: &str, b: &str) -> (out: bool)
    ensures
        out == names_match(a@, b@),
{
    let left = chars_of(a);
    let right = chars_of(b);
    if left.len() != right.len() {
        assert(upper(a@).len() != upper(b@).len());
        return false;
    }
    let mut i: usize = 0;
    while i < left.len()
        invariant
            left@ == a@,
            right@ == b@,
            left.len() == right.len(),
            i <= left.len(),
            forall|j: int| 0 <= j < i ==> upper_char(a@[j]) == upper_char(b@[j]),
        decreases left.len() - i,
    {
        if to_upper_char(left[i]) != to_upper_char(right[i]) {
            assert(upper(a@)[i as int] != upper(b@)[i as int]);
            return false;
        }
        i = i + 1;
    }
    assert(upper(a@) =~= upper(b@));
    true
}

} // verus!
