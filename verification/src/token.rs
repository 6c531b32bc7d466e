//! The token record handed to the host indexer: a piece of text with its
//! byte span in the source and its ordinal position in the stream.

use vstd::prelude::*;

verus! {

/// The mathematical image of a [`Token`]: the text as a sequence of
/// characters, the byte span as unbounded naturals, and the position.
#[verifier::ext_equal]
pub struct TokenView {
    pub text: Seq<char>,
    pub offset_from: nat,
    pub offset_to: nat,
    pub position: nat,
    pub position_length: nat,
}

/// One indexable unit of text. `offset_from` and `offset_to` delimit the
/// half-open byte range the text occupies in the source; `position` is the
/// zero-based ordinal among the tokens emitted for one text;
/// `position_length` is the number of positions the token spans.
pub struct Token {
    pub text: String,
    pub offset_from: usize,
    pub offset_to: usize,
    pub position: usize,
    pub position_length: usize,
}

impl View for Token {
    type V = TokenView;

    open spec fn view(&self) -> TokenView {
        TokenView {
            text: self.text@,
            offset_from: self.offset_from as nat,
            offset_to: self.offset_to as nat,
            position: self.position as nat,
            position_length: self.position_length as nat,
        }
    }
}

/// The image of the token a stream holds before its first advance:
/// empty text, every number zero.
pub open spec fn empty_token_view() -> TokenView {
    TokenView { text: Seq::empty(), offset_from: 0, offset_to: 0, position: 0, position_length: 0 }
}

impl Default for Token {
    /// The token a stream holds before its first advance.
    fn default() -> (t: Token)
        ensures
            t@ == empty_token_view(),
    {
        let t = Token {
            text: String::new(),
            offset_from: 0,
            offset_to: 0,
            position: 0,
            position_length: 0,
        };
        proof {
            assert(t@ =~= empty_token_view());
        }
        t
    }
}

} // verus!
