//! Counting the words of a text. The counting itself is done by the crate
//! `words_count`; this module gives its result a name that contracts can
//! speak of.

use vstd::prelude::*;

verus! {

/// The number of words that `words_count::count` finds in a text: roughly, the
/// runs of characters between whitespace, with two dashes in a row also
/// ending a word and every CJK character counted as a word of its own. The
/// number depends on the text alone.
pub uninterp spec fn words_in(text: Seq<char>) -> nat;

/// Calls `words_count::count` on the text and hands back the field `words`
/// of the counts it returns. Nothing is proved of the call: the contract
/// only says that its result is the number named `words_in` of this text.
#[verifier::external_body]
fn count_with_words_count(text: &str) -> (words: usize)
    ensures
        words == words_in(text@),
{
    words_count::count(text).words
}

/// The number of words in `text`.
pub fn count_words(text: &str) -> (words: u64)
    ensures
        words == words_in(text@),
{
    count_with_words_count(text) as u64
}

/// A count of words, or the lack of one, as the model of the session takes
/// it.
pub open spec fn as_count(sampled: Option<u64>) -> Option<nat> {
    match sampled {
        Some(total) => Some(total as nat),
        None => None,
    }
}

/// What counting finds in a reading of the watched file: the number of words
/// of the text, or nothing if there is no text because the file could not be
/// read.
pub open spec fn counted(reading: Option<&str>) -> Option<nat> {
    match reading {
        Some(text) => Some(words_in(text@)),
        None => None,
    }
}

/// Counts the words of a reading of the watched file, if there is one.
pub fn count_reading(reading: Option<&str>) -> (sampled: Option<u64>)
    ensures
        as_count(sampled) == counted(reading),
{
    match reading {
        Some(text) => Some(count_words(text)),
        None => None,
    }
}

} // verus!
