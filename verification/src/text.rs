//! Character-level helpers over string views.

use vstd::prelude::*;
use vstd::string::*;

verus! {

/// Compares two strings character by character.
pub fn str_eq(a: &str, b: &str) -> (r: bool)
    ensures
        r == (a@ == b@),
{
    let n = a.unicode_len();
    if n != b.unicode_len() {
        return false;
    }
    let mut i: usize = 0;
    while i < n
        invariant
            n == a@.len(),
            n == b@.len(),
            i <= n,
            forall|j: int| 0 <= j < i ==> a@[j] == b@[j],
        decreases n - i,
    {
        if a.get_char(i) != b.get_char(i) {
            return false;
        }
        i = i + 1;
    }
    assert(a@ =~= b@);
    true
}


/// An ASCII hexadecimal digit.
pub open spec fn is_hex_digit(c: char) -> bool {
    ('0' <= c && c <= '9') || ('a' <= c && c <= 'f') || ('A' <= c && c <= 'F')
}

/// A colour in the `#rrggbb` form that both CSS and colour inputs accept:
/// `#` followed by exactly six hexadecimal digits.
pub open spec fn is_hex_color(s: Seq<char>) -> bool {
    &&& s.len() == 7
    &&& s[0] == '#'
    &&& forall|i: int| 1 <= i < 7 ==> is_hex_digit(#[trigger] s[i])
}

/// Whether a character is an ASCII hexadecimal digit.
pub fn hex_digit(c: char) -> (r: bool)
    ensures
        r == is_hex_digit(c),
{
    ('0' <= c && c <= '9') || ('a' <= c && c <= 'f') || ('A' <= c && c <= 'F')
}

/// Whether a string is a `#rrggbb` colour.
pub fn hex_color(s: &str) -> (r: bool)
    ensures
        r == is_hex_color(s@),
{
    if s.unicode_len() != 7 {
        return false;
    }
    if s.get_char(0) != '#' {
        return false;
    }
    let mut i: usize = 1;
    while i < 7
        invariant
            s@.len() == 7,
            s@[0] == '#',
            1 <= i <= 7,
            forall|j: int| 1 <= j < i ==> is_hex_digit(#[trigger] s@[j]),
        decreases 7 - i,
    {
        if !hex_digit(s.get_char(i)) {
            return false;
        }
        i = i + 1;
    }
    true
}

/// A colour is accepted exactly when it is `#` followed by six characters
/// from `0`-`9`, `a`-`f` and `A`-`F`, and nothing more.
pub proof fn lemma_hex_color_meaning(s: Seq<char>)
    ensures
        is_hex_color(s) <==> (s.len() == 7 && s[0] == '#' && forall|i: int|
            1 <= i < 7 ==> (('0' <= #[trigger] s[i] && s[i] <= '9') || ('a' <= s[i] && s[i] <= 'f')
                || ('A' <= s[i] && s[i] <= 'F'))),
{
}

} // verus!
