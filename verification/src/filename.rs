//! Output-filename derivation.
//!
//! The base name of the source path is the final path segment truncated at
//! the first `.` — not the last one, so a name with several dots such as
//! `my.photo.png` is truncated to `my`. The output filename appends a dot
//! and the lowercased format token to that base name.

use vstd::prelude::*;
use vstd::string::*;
use crate::casing::lower_seq;
use crate::casing::to_lowercase;

verus! {

/// The final path segment of `s`: the characters after the last `/`, or all
/// of `s` when it contains no `/`.
pub open spec fn final_segment(s: Seq<char>) -> Seq<char>
    decreases s.len(),
{
    if s.len() == 0 {
        Seq::empty()
    } else if s.last() == '/' {
        Seq::empty()
    } else {
        final_segment(s.drop_last()).push(s.last())
    }
}

/// The characters of `s` before its first `.`, or all of `s` when it
/// contains no `.`.
pub open spec fn before_first_dot(s: Seq<char>) -> Seq<char>
    decreases s.len(),
{
    if s.len() == 0 {
        Seq::empty()
    } else if s.first() == '.' {
        Seq::empty()
    } else {
        seq![s.first()] + before_first_dot(s.drop_first())
    }
}

/// The base name derived from a source path: its final path segment
/// truncated at the first dot.
pub open spec fn basename(s: Seq<char>) -> Seq<char> {
    before_first_dot(final_segment(s))
}

/// When no `/` occurs at or after `start` and `start` is either the very
/// beginning or just after a `/`, the final segment is exactly the tail of
/// the string from `start`.
proof fn lemma_final_segment_is_tail(s: Seq<char>, start: int)
    requires
        0 <= start <= s.len(),
        start == 0 || s[start - 1] == '/',
        forall|k: int| start <= k < s.len() ==> s[k] != '/',
    ensures
        final_segment(s) == s.subrange(start, s.len() as int),
    decreases s.len(),
{
    if s.len() == 0 {
        assert(final_segment(s) =~= s.subrange(start, s.len() as int));
    } else if start == s.len() {
        assert(s.last() == '/');
        assert(final_segment(s) =~= s.subrange(start, s.len() as int));
    } else {
        assert(s.last() != '/');
        lemma_final_segment_is_tail(s.drop_last(), start);
        assert(s.drop_last().subrange(start, s.len() - 1) =~= s.subrange(start, s.len() - 1));
        assert(s.subrange(start, s.len() - 1).push(s.last()) =~= s.subrange(
            start,
            s.len() as int,
        ));
    }
}

/// When no `.` occurs before `stop` and `stop` is either the end of the
/// string or the position of a `.`, the part before the first dot is exactly
/// the prefix of the string up to `stop`.
proof fn lemma_before_first_dot_is_prefix(s: Seq<char>, stop: int)
    requires
        0 <= stop <= s.len(),
        stop == s.len() || s[stop] == '.',
        forall|k: int| 0 <= k < stop ==> s[k] != '.',
    ensures
        before_first_dot(s) == s.subrange(0, stop),
    decreases s.len(),
{
    if s.len() == 0 {
        assert(before_first_dot(s) =~= s.subrange(0, stop));
    } else if stop == 0 {
        assert(s.first() == '.');
        assert(before_first_dot(s) =~= s.subrange(0, stop));
    } else {
        assert(s.first() != '.');
        lemma_before_first_dot_is_prefix(s.drop_first(), stop - 1);
        assert(s.drop_first().subrange(0, stop - 1) =~= s.subrange(1, stop));
        assert(seq![s.first()] + s.subrange(1, stop) =~= s.subrange(0, stop));
    }
}

/// Returns the base name of `path`: the final path segment truncated at its
/// first dot.
pub fn get_filename_from_path(path: &String) -> (r: String)
    ensures
        r@ == basename(path@),
{
    let text = path.as_str();
    let n = text.unicode_len();
    let mut start: usize = 0;
    let mut i: usize = 0;
    while i < n
        invariant
            start <= i <= n,
            n == text@.len(),
            text@ == path@,
            start == 0 || path@[start - 1] == '/',
            forall|k: int| start <= k < i ==> path@[k] != '/',
        decreases n - i,
    {
        let c = text.get_char(i);
        if c == '/' {
            start = i + 1;
        }
        i = i + 1;
    }
    let mut stop: usize = start;
    let mut found_dot = false;
    while stop < n && !found_dot
        invariant
            start <= stop <= n,
            n == text@.len(),
            text@ == path@,
            forall|k: int| start <= k < stop ==> path@[k] != '.',
            found_dot ==> stop < n && path@[stop as int] == '.',
        decreases n - stop + (if found_dot { 0int } else { 1int }),
    {
        let c = text.get_char(stop);
        if c == '.' {
            found_dot = true;
        } else {
            stop = stop + 1;
        }
    }
    let piece = text.substring_char(start, stop);
    proof {
        lemma_final_segment_is_tail(path@, start as int);
        let tail = path@.subrange(start as int, path@.len() as int);
        lemma_before_first_dot_is_prefix(tail, stop - start);
        assert(tail.subrange(0, stop - start) =~= path@.subrange(start as int, stop as int));
    }
    piece.to_owned()
}

/// Returns the output filename for the given source path and format token:
/// the base name of the path, a dot, and the lowercased token.
pub fn output_file_name(path: &String, token: &String) -> (r: String)
    ensures
        r@ == basename(path@) + seq!['.'] + lower_seq(token@),
{
    let base = get_filename_from_path(path);
    let lowered = to_lowercase(token);
    let joined = base.concat(".");
    let result = joined.concat(lowered.as_str());
    proof {
        reveal_strlit(".");
        assert(basename(path@) + "."@ + lower_seq(token@) =~= basename(path@) + seq!['.']
            + lower_seq(token@));
    }
    result
}

} // verus!
