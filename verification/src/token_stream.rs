//! The token-stream adapter: a stateful, pull-based iterator over the
//! words TinySegmenter produced for one text. Each advance pops the next
//! word, reconstructs its byte span from the running cursor, and exposes
//! it as the current token.

use vstd::prelude::*;

use crate::segmentation::lemma_prefix_utf8_len_le_total;
use crate::segmentation::lemma_prefix_utf8_len_succ;
use crate::segmentation::segment;
use crate::segmentation::segments_of;
use crate::segmentation::utf8_len;
use crate::token::empty_token_view;
use crate::token::Token;
use crate::token::TokenView;

verus! {

/// The token the stream exposes after consuming word `i` of `words`:
/// the word itself as text, position `i`, and the half-open byte span
/// that word occupies when the words are laid out contiguously from
/// byte 0 — which is its span in the original text, since concatenating
/// the words reproduces that text.
pub open spec fn token_at(words: Seq<Seq<char>>, i: int) -> TokenView {
    TokenView {
        text: words[i],
        offset_from: utf8_len(words.take(i).flatten()),
        offset_to: utf8_len(words.take(i + 1).flatten()),
        position: i as nat,
        position_length: 1,
    }
}

/// The whole token sequence a stream emits for a given word sequence:
/// one token per word, in order.
pub open spec fn token_seq(words: Seq<Seq<char>>) -> Seq<TokenView> {
    Seq::new(words.len(), |i: int| token_at(words, i))
}

/// A pull-based stream of the tokens of one text, segmented by
/// TinySegmenter. Created fresh per text; `advance` materializes one
/// token at a time and `token` reads the most recent one.
pub struct TinySegmenterTokenStream {
    words: Vec<String>,
    next_index: usize,
    current_token: Token,
    offset_from: usize,
    offset_to: usize,
}

impl TinySegmenterTokenStream {
    /// The word sequence the stream was built over, one character
    /// sequence per word, in emission order.
    pub closed spec fn segments(&self) -> Seq<Seq<char>> {
        self.words.deep_view()
    }

    /// How many words have been consumed — equally, how many tokens have
    /// been emitted.
    pub closed spec fn consumed(&self) -> nat {
        self.next_index as nat
    }

    /// The running byte cursor: the end offset of the last emitted token,
    /// 0 before the first.
    pub closed spec fn cursor(&self) -> nat {
        self.offset_to as nat
    }

    /// The image of the current token buffer.
    pub closed spec fn current(&self) -> TokenView {
        self.current_token@
    }

    /// The tokens emitted so far: the first `consumed()` entries of the
    /// full token sequence of the stream's words.
    pub open spec fn emitted(&self) -> Seq<TokenView> {
        token_seq(self.segments()).take(self.consumed() as int)
    }

    /// The stream's internal invariant: the consumption index stays
    /// within the word sequence, the byte cursor equals the byte length
    /// of the words consumed so far, the total byte length of all words
    /// fits the machine, and before the first advance both offsets are 0.
    pub closed spec fn wf(&self) -> bool {
        &&& self.next_index <= self.words.len()
        &&& self.offset_to as nat == utf8_len(
            self.segments().take(self.next_index as int).flatten(),
        )
        &&& utf8_len(self.segments().flatten()) <= usize::MAX
        &&& self.offset_from <= self.offset_to
        &&& self.next_index == 0 ==> self.offset_from == 0 && self.offset_to == 0
    }

    /// Wrap an already-segmented word sequence in a fresh stream:
    /// nothing consumed, byte cursor at 0, current token empty. The one
    /// demand is the machine limit the offsets live under: the words'
    /// total byte length must fit in `usize` — which holds of any word
    /// sequence whose concatenation re-forms a string, as the
    /// segmenter's does.
    pub fn from_words(words: Vec<String>) -> (stream: TinySegmenterTokenStream)
        requires
            utf8_len(words.deep_view().flatten()) <= usize::MAX,
        ensures
            stream.wf(),
            stream.segments() == words.deep_view(),
            stream.consumed() == 0,
            stream.current() == empty_token_view(),
            stream.cursor() == 0,
    {
        let stream = TinySegmenterTokenStream {
            words,
            next_index: 0,
            current_token: Token::default(),
            offset_from: 0,
            offset_to: 0,
        };
        proof {
            assert(stream.segments().take(0) =~= Seq::<Seq<char>>::empty());
        }
        stream
    }

    /// Segment `text` once and wrap the resulting words in a fresh
    /// stream. The last three clauses restate what the segmentation
    /// collaborator guarantees, so callers can reason about the
    /// stream's output against the original text.
    pub fn new(text: &str) -> (stream: TinySegmenterTokenStream)
        ensures
            stream.wf(),
            stream.segments() == segments_of(text@),
            stream.consumed() == 0,
            stream.current() == empty_token_view(),
            stream.cursor() == 0,
            segments_of(text@).flatten() == text@,
            forall|i: int|
                0 <= i < segments_of(text@).len() ==> (#[trigger] segments_of(text@)[i]).len()
                    > 0,
            text@.len() == 0 ==> segments_of(text@).len() == 0,
    {
        let words = segment(text);
        TinySegmenterTokenStream::from_words(words)
    }

    /// Attempt to pull the next word. If one remains, it becomes the
    /// current token — text the word, position its ordinal, byte span
    /// continuing exactly where the previous token ended — and the call
    /// returns true. If none remains the stream is untouched and the
    /// call returns false; by the same clause, every later call keeps
    /// returning false: exhaustion is permanent.
    pub fn advance(&mut self) -> (produced: bool)
        requires
            old(self).wf(),
        ensures
            final(self).wf(),
            final(self).segments() == old(self).segments(),
            produced == (old(self).consumed() < old(self).segments().len()),
            produced ==> final(self).consumed() == old(self).consumed() + 1,
            produced ==> final(self).current() == token_at(
                old(self).segments(),
                old(self).consumed() as int,
            ),
            produced ==> final(self).cursor() == final(self).current().offset_to,
            produced ==> final(self).emitted() == old(self).emitted().push(
                final(self).current(),
            ),
            !produced ==> *final(self) == *old(self),
    {
        if self.next_index < self.words.len() {
            let pos: usize = self.next_index;
            proof {
                lemma_prefix_utf8_len_succ(self.segments(), pos as int);
                lemma_prefix_utf8_len_le_total(self.segments(), pos + 1);
                assert(self.segments()[pos as int] == self.words@[pos as int]@);
            }
            let term = self.words[pos].clone();
            let term_len: usize = term.as_str().len();
            self.offset_from = self.offset_to;
            self.offset_to = self.offset_from + term_len;
            self.current_token = Token {
                text: term,
                offset_from: self.offset_from,
                offset_to: self.offset_to,
                position: pos,
                position_length: 1,
            };
            self.next_index = pos + 1;
            proof {
                assert(self.current_token@ =~= token_at(self.segments(), pos as int));
                assert(token_seq(self.segments()).take(pos + 1) =~= token_seq(
                    self.segments(),
                ).take(pos as int).push(token_at(self.segments(), pos as int)));
            }
            true
        } else {
            false
        }
    }

    /// Read-only view of the most recently produced token; before the
    /// first successful advance, the empty token.
    pub fn token(&self) -> (t: &Token)
        ensures
            t@ == self.current(),
    {
        &self.current_token
    }

    /// Mutable view of the most recently produced token, for hosts that
    /// rewrite a token in place (a filter lowercasing text, say). Only
    /// the current token buffer is exposed: the words, the consumption
    /// index and the byte cursor keep their values, so the stream keeps
    /// its invariant whatever the caller writes through the borrow.
    pub fn token_mut(&mut self) -> (t: &mut Token)
        ensures
            *t == old(self).spec_current_token(),
            (*t)@ == old(self).current(),
            final(self).wf() == old(self).wf(),
            final(self).segments() == old(self).segments(),
            final(self).consumed() == old(self).consumed(),
            final(self).cursor() == old(self).cursor(),
            final(self).current() == (*final(t))@,
    {
        &mut self.current_token
    }

    /// The current token buffer itself, not just its image: what
    /// `token_mut` hands out.
    pub closed spec fn spec_current_token(&self) -> Token {
        self.current_token
    }
}

} // verus!
