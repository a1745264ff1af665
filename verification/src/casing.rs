//! Lowercasing of format tokens.
//!
//! The format token supplied by the user is matched case-insensitively and
//! also becomes the extension of the output filename, so the library needs a
//! lowercased copy of it. Only ASCII letters are folded: the recognized
//! tokens are all ASCII, and any token containing other characters is
//! rejected by the format table regardless of case.

use vstd::prelude::*;
use vstd::string::*;

verus! {

/// The lowercase counterpart of one character: ASCII uppercase letters are
/// mapped to the corresponding lowercase letter, every other character is
/// left unchanged.
pub open spec fn lower_char(c: char) -> char {
    if 65 <= c as u32 && c as u32 <= 90 {
        ((c as u32) + 32) as char
    } else {
        c
    }
}

/// A character sequence with each character lowercased by [`lower_char`].
pub open spec fn lower_seq(s: Seq<char>) -> Seq<char> {
    s.map_values(|c: char| lower_char(c))
}

/// Returns the lowercase counterpart of one character, by the fold that
/// [`lower_char`] states.
fn char_lower(c: char) -> (r: char)
    ensures
        r == lower_char(c),
{
    match c {
        'A' => 'a',
        'B' => 'b',
        'C' => 'c',
        'D' => 'd',
        'E' => 'e',
        'F' => 'f',
        'G' => 'g',
        'H' => 'h',
        'I' => 'i',
        'J' => 'j',
        'K' => 'k',
        'L' => 'l',
        'M' => 'm',
        'N' => 'n',
        'O' => 'o',
        'P' => 'p',
        'Q' => 'q',
        'R' => 'r',
        'S' => 's',
        'T' => 't',
        'U' => 'u',
        'V' => 'v',
        'W' => 'w',
        'X' => 'x',
        'Y' => 'y',
        'Z' => 'z',
        _ => c,
    }
}

/// Relies on `alloc::string::String::push`: appends the given character to
/// the end of the string.
#[verifier::external_body]
fn push_char(s: &mut String, c: char)
    ensures
        final(s)@ == old(s)@.push(c),
{
    s.push(c)
}

/// Returns a copy of `s` with every ASCII uppercase letter replaced by its
/// lowercase counterpart and every other character kept as it is.
pub fn to_lowercase(s: &String) -> (r: String)
    ensures
        r@ == lower_seq(s@),
{
    let text = s.as_str();
    let n = text.unicode_len();
    let mut out = String::new();
    let mut i: usize = 0;
    while i < n
        invariant
            i <= n,
            n == text@.len(),
            text@ == s@,
            out@ == lower_seq(s@.subrange(0, i as int)),
        decreases n - i,
    {
        let c = text.get_char(i);
        let lc = char_lower(c);
        push_char(&mut out, lc);
        proof {
            assert(s@.subrange(0, i + 1 as int) =~= s@.subrange(0, i as int).push(s@[i as int]));
            assert(lower_seq(s@.subrange(0, i + 1 as int)) =~= lower_seq(
                s@.subrange(0, i as int),
            ).push(lower_char(s@[i as int])));
        }
        i = i + 1;
    }
    proof {
        assert(s@.subrange(0, n as int) =~= s@);
    }
    out
}

/// Lowercasing one character twice is the same as lowercasing it once: the
/// image of [`lower_char`] contains no ASCII uppercase letter.
pub proof fn lemma_lower_char_idempotent(c: char)
    ensures
        lower_char(lower_char(c)) == lower_char(c),
{
}

/// Lowercasing a token is idempotent, so a token spelled in any mixture of
/// cases is matched exactly as its lowercased spelling is.
pub proof fn lemma_lower_seq_idempotent(s: Seq<char>)
    ensures
        lower_seq(lower_seq(s)) == lower_seq(s),
{
    assert forall|i: int| 0 <= i < s.len() implies lower_seq(lower_seq(s))[i] == lower_seq(s)[i] by {
        lemma_lower_char_idempotent(s[i]);
    }
    assert(lower_seq(lower_seq(s)) =~= lower_seq(s));
}

} // verus!
