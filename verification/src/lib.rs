//! A Japanese tokenizer for search indexing: it segments text with
//! TinySegmenter and exposes the segments through a pull-based token
//! stream, each token carrying its byte span and ordinal position.

pub mod laws;
pub mod segmentation;
pub mod token;
pub mod token_stream;
pub mod tokenizer;
