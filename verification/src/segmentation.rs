//! The segmentation collaborator: TinySegmenter splits a text into an
//! ordered sequence of word strings, and this module states what the
//! adapter relies on — concatenating the words in order reproduces the
//! text exactly — together with the byte-length arithmetic the stream's
//! offset bookkeeping rests on.

use vstd::prelude::*;
use vstd::utf8::encode_utf8;

verus! {

/// The sequence of words TinySegmenter produces for a text. The algorithm
/// is a pure function of the characters, so the result bears a name that
/// the trusted wrapper's contract and the stream's contracts share.
pub uninterp spec fn segments_of(text: Seq<char>) -> Seq<Seq<char>>;

/// The number of bytes in the UTF-8 encoding of a character sequence.
pub open spec fn utf8_len(s: Seq<char>) -> nat {
    encode_utf8(s).len()
}

/// Relies on tinysegmenter::tokenize: it walks the characters of `text`
/// in order and cuts the walk into words at predicted boundaries, so
/// every character lands in exactly one word and concatenating the words
/// in order reproduces `text`; no word is empty (a cut is always followed
/// by at least one character before the next cut), and an empty text
/// yields no words at all. The byte-length bound restates that the words
/// jointly re-encode a `str`, whose byte length always fits in `usize`.
#[verifier::external_body]
pub(crate) fn segment(text: &str) -> (words: Vec<String>)
    ensures
        words.deep_view() == segments_of(text@),
        words.deep_view().flatten() == text@,
        forall|i: int|
            0 <= i < words.deep_view().len() ==> (#[trigger] words.deep_view()[i]).len() > 0,
        text@.len() == 0 ==> words.deep_view().len() == 0,
        utf8_len(words.deep_view().flatten()) <= usize::MAX,
{
    tinysegmenter::tokenize(text)
}

/// UTF-8 encoding distributes over concatenation: encoding `a + b` is
/// encoding `a` followed by encoding `b`.
pub proof fn lemma_encode_utf8_concat(a: Seq<char>, b: Seq<char>)
    ensures
        encode_utf8(a + b) == encode_utf8(a) + encode_utf8(b),
    decreases a.len(),
{
    if a.len() == 0 {
        assert(a + b =~= b);
        assert(encode_utf8(a) + encode_utf8(b) =~= encode_utf8(b));
    } else {
        lemma_encode_utf8_concat(a.drop_first(), b);
        assert((a + b).drop_first() =~= a.drop_first() + b);
        assert((a + b)[0] == a[0]);
        assert(encode_utf8(a + b) =~= encode_utf8(a) + encode_utf8(b));
    }
}

/// The bytes of the first `i + 1` words are the bytes of the first `i`
/// words followed by the bytes of word `i`: the step the stream's byte
/// cursor takes on each advance.
pub proof fn lemma_prefix_utf8_len_succ(words: Seq<Seq<char>>, i: int)
    requires
        0 <= i < words.len(),
    ensures
        utf8_len(words.take(i + 1).flatten()) == utf8_len(words.take(i).flatten()) + utf8_len(
            words[i],
        ),
{
    words.lemma_take_succ_push(i);
    words.take(i).lemma_flatten_push(words[i]);
    lemma_encode_utf8_concat(words.take(i).flatten(), words[i]);
}

/// The bytes of any prefix of the words never outrun the bytes of the
/// whole word sequence.
pub proof fn lemma_prefix_utf8_len_le_total(words: Seq<Seq<char>>, i: int)
    requires
        0 <= i <= words.len(),
    ensures
        utf8_len(words.take(i).flatten()) <= utf8_len(words.flatten()),
{
    assert(words =~= words.take(i) + words.skip(i));
    vstd::seq_lib::lemma_flatten_concat(words.take(i), words.skip(i));
    lemma_encode_utf8_concat(words.take(i).flatten(), words.skip(i).flatten());
}

} // verus!
