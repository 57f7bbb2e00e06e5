//! Scanning a rule line into its five fields.

use vstd::prelude::*;
use crate::text::is_whitespace_char;

verus! {

/// The number of characters at the start of `s` that are not whitespace.
pub open spec fn word_len(s: Seq<char>) -> nat
    decreases s.len(),
{
    if s.len() == 0 || is_whitespace_char(s[0]) {
        0
    } else {
        1 + word_len(s.drop_first())
    }
}

/// The words of `s`: its longest runs of characters that are not whitespace,
/// in order.
pub open spec fn words(s: Seq<char>) -> Seq<Seq<char>>
    decreases s.len(),
    via words_decreases
{
    if s.len() == 0 {
        Seq::empty()
    } else if is_whitespace_char(s[0]) {
        words(s.drop_first())
    } else {
        seq![s.take(word_len(s) as int)] + words(s.skip(word_len(s) as int))
    }
}

#[via_fn]
proof fn words_decreases(s: Seq<char>) {
    lemma_word_len_bound(s);
}

/// A run of characters is no longer than the sequence it stands in.
pub proof fn lemma_word_len_bound(s: Seq<char>)
    ensures
        word_len(s) <= s.len(),
        s.len() > 0 && !is_whitespace_char(s[0]) ==> word_len(s) > 0,
    decreases s.len(),
{
    if s.len() > 0 && !is_whitespace_char(s[0]) {
        lemma_word_len_bound(s.drop_first());
    }
}

/// No word is empty.
pub proof fn lemma_words_not_empty(s: Seq<char>)
    ensures
        forall|i: int| 0 <= i < words(s).len() ==> (#[trigger] words(s)[i]).len() > 0,
    decreases s.len(),
{
    lemma_word_len_bound(s);
    if s.len() == 0 {
        assert(words(s).len() == 0);
    } else if is_whitespace_char(s[0]) {
        lemma_words_not_empty(s.drop_first());
        assert(words(s) == words(s.drop_first()));
    } else {
        let first = s.take(word_len(s) as int);
        let rest = words(s.skip(word_len(s) as int));
        lemma_words_not_empty(s.skip(word_len(s) as int));
        assert forall|i: int| 0 <= i < words(s).len() implies (#[trigger] words(s)[i]).len()
            > 0 by {
            if i > 0 {
                assert(words(s)[i] == rest[i - 1]);
            } else {
                assert(words(s)[0] == first);
            }
        }
    }
}

/// The five fields that a rule line scans into: its first five words, the
/// fourth of which is one character. `None` where the line has fewer words or
/// a longer fourth word. Words after the fifth are not looked at.
pub open spec fn scanned_fields(line: Seq<char>) -> Option<
    (Seq<char>, Seq<char>, Seq<char>, char, Seq<char>),
> {
    let w = words(line);
    if w.len() >= 5 && w[3].len() == 1 {
        Some((w[0], w[1], w[2], w[3][0], w[4]))
    } else {
        None
    }
}

/// The error of `serde_scan`. The library reads nothing from it.
#[verifier::external_type_specification]
#[verifier::external_body]
pub struct ExScanError(serde_scan::ScanError);

/// Calls `serde_scan::from_str` for a tuple of three strings, a character and
/// a string. That function splits its input at whitespace, drops the empty
/// pieces and hands the pieces that are left to the tuple's fields in order:
/// a string field takes a piece as it is, the character field takes a piece
/// of exactly one character. It fails where a piece is missing or the
/// character's piece has another length, and ignores what follows the fifth
/// piece.
#[verifier::external_body]
pub(crate) fn scan_fields<'a>(line: &'a str) -> (r: Result<
    (&'a str, &'a str, &'a str, char, &'a str),
    serde_scan::ScanError,
>)
    ensures
        match r {
            Ok(fields) => scanned_fields(line@) == Some(
                (fields.0@, fields.1@, fields.2@, fields.3, fields.4@),
            ),
            Err(_) => scanned_fields(line@) is None,
        },
{
    serde_scan::from_str(line)
}

} // verus!
