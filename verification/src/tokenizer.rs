//! The tokenizer factory: a stateless value that turns a text into a
//! fresh token stream. A host registers it under a name of its choosing
//! and routes indexed fields through it; each call hands back an
//! independent stream, so concurrent indexing contexts never share state.

use vstd::prelude::*;

use crate::segmentation::segments_of;
use crate::token::empty_token_view;
use crate::token_stream::TinySegmenterTokenStream;

verus! {

/// Tokenizer for Japanese text, based on TinySegmenter.
#[derive(Clone, Copy)]
pub struct TinySegmenterTokenizer;

impl TinySegmenterTokenizer {
    /// Build a fresh stream over `text`. The factory holds no state, so
    /// every call is independent and the stream's contents are a
    /// function of `text` alone.
    pub fn token_stream(&self, text: &str) -> (stream: TinySegmenterTokenStream)
        ensures
            stream.wf(),
            stream.segments() == segments_of(text@),
            stream.consumed() == 0,
            stream.current() == empty_token_view(),
            stream.cursor() == 0,
            segments_of(text@).flatten() == text@,
            text@.len() == 0 ==> segments_of(text@).len() == 0,
    {
        TinySegmenterTokenStream::new(text)
    }
}

} // verus!
