//! The laws of the token stream, stated over the token sequence that the
//! adapter's contracts pin down: every stream built over a word sequence
//! emits exactly `token_seq(words)`, so each law about that sequence is a
//! law about every stream.

use vstd::prelude::*;

use crate::segmentation::lemma_prefix_utf8_len_le_total;
use crate::segmentation::lemma_prefix_utf8_len_succ;
use crate::segmentation::utf8_len;
use crate::token::TokenView;
use crate::token_stream::token_seq;
use crate::token_stream::TinySegmenterTokenStream;

verus! {

/// The texts of a token sequence, in emission order.
pub open spec fn texts_of(tokens: Seq<TokenView>) -> Seq<Seq<char>> {
    tokens.map_values(|tv: TokenView| tv.text)
}

/// Concatenating the texts of all tokens, in position order, reproduces
/// the original text exactly, and the byte spans tile the interval from
/// 0 to the text's byte length: the first token starts at 0, every span
/// stays within the text, and the last token ends at the text's byte
/// length.
pub proof fn lemma_tokens_reconstruct_text(words: Seq<Seq<char>>, text: Seq<char>)
    requires
        words.flatten() == text,
    ensures
        texts_of(token_seq(words)).flatten() == text,
        words.len() > 0 ==> token_seq(words)[0].offset_from == 0,
        words.len() > 0 ==> token_seq(words)[words.len() - 1].offset_to == utf8_len(text),
        forall|i: int|
            0 <= i < words.len() ==> (#[trigger] token_seq(words)[i]).offset_from <= token_seq(
                words,
            )[i].offset_to <= utf8_len(text),
{
    assert(texts_of(token_seq(words)) =~= words);
    if words.len() > 0 {
        assert(words.take(0) =~= Seq::<Seq<char>>::empty());
        assert(words.take(words.len() as int) =~= words);
    }
    assert forall|i: int|
        0 <= i < words.len() implies (#[trigger] token_seq(words)[i]).offset_from <= token_seq(
        words,
    )[i].offset_to <= utf8_len(text) by {
        lemma_prefix_utf8_len_succ(words, i);
        lemma_prefix_utf8_len_le_total(words, i + 1);
    }
}

/// Each token's byte span is exactly as wide as its text: the span's end
/// is its start plus the byte length of the text.
pub proof fn lemma_token_width_is_text_length(words: Seq<Seq<char>>, i: int)
    requires
        0 <= i < words.len(),
    ensures
        token_seq(words)[i].offset_to == token_seq(words)[i].offset_from + utf8_len(
            token_seq(words)[i].text,
        ),
{
    lemma_prefix_utf8_len_succ(words, i);
}

/// Adjacent tokens are contiguous: each token starts exactly where the
/// previous one ended, with no gap and no overlap.
pub proof fn lemma_adjacent_tokens_contiguous(words: Seq<Seq<char>>, i: int)
    requires
        0 <= i,
        i + 1 < words.len(),
    ensures
        token_seq(words)[i].offset_to == token_seq(words)[i + 1].offset_from,
{
}

/// Positions are exactly 0, 1, 2, … in emission order, with no gap and
/// no repeat — and hence strictly increasing.
pub proof fn lemma_positions_sequential(words: Seq<Seq<char>>)
    ensures
        forall|i: int| 0 <= i < words.len() ==> (#[trigger] token_seq(words)[i]).position == i,
{
}

/// Two streams over the same words that have consumed the same number of
/// them have emitted identical token sequences: the output is a function
/// of the text alone, with no shared state between streams.
pub proof fn lemma_equal_streams_emit_equal_tokens(
    s1: TinySegmenterTokenStream,
    s2: TinySegmenterTokenStream,
)
    requires
        s1.segments() == s2.segments(),
        s1.consumed() == s2.consumed(),
    ensures
        s1.emitted() == s2.emitted(),
{
}

} // verus!
