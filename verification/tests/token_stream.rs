use tantivy_tokenizer_tiny_segmenter::token_stream::TinySegmenterTokenStream;
use tantivy_tokenizer_tiny_segmenter::tokenizer::TinySegmenterTokenizer;

/// Drain a stream, returning each produced token as
/// (text, offset_from, offset_to, position, position_length).
fn drain(stream: &mut TinySegmenterTokenStream) -> Vec<(String, usize, usize, usize, usize)> {
    let mut tokens = Vec::new();
    while stream.advance() {
        let t = stream.token();
        tokens.push((t.text.clone(), t.offset_from, t.offset_to, t.position, t.position_length));
    }
    tokens
}

fn words(items: &[&str]) -> Vec<String> {
    items.iter().map(|w| w.to_string()).collect()
}

#[test]
fn empty_text_yields_no_tokens() {
    let mut stream = TinySegmenterTokenStream::new("");
    assert!(!stream.advance());
    let t = stream.token();
    assert_eq!(t.text, "");
    assert_eq!(t.offset_from, 0);
    assert_eq!(t.offset_to, 0);
    assert_eq!(t.position, 0);
    assert_eq!(t.position_length, 0);
}

#[test]
fn factory_stream_over_empty_text_is_exhausted() {
    let tokenizer = TinySegmenterTokenizer;
    let mut stream = tokenizer.token_stream("");
    assert!(!stream.advance());
    assert!(!stream.advance());
}

#[test]
fn empty_word_sequence_yields_no_tokens() {
    let mut stream = TinySegmenterTokenStream::from_words(Vec::new());
    assert!(!stream.advance());
}

#[test]
fn token_before_first_advance_is_default() {
    let stream = TinySegmenterTokenStream::from_words(words(&["日本語", "の", "本文"]));
    let t = stream.token();
    assert_eq!(t.text, "");
    assert_eq!(t.offset_from, 0);
    assert_eq!(t.offset_to, 0);
    assert_eq!(t.position, 0);
    assert_eq!(t.position_length, 0);
}

#[test]
fn exhaustion_is_permanent() {
    let mut stream = TinySegmenterTokenStream::from_words(words(&["吾輩", "は", "猫"]));
    while stream.advance() {}
    assert!(!stream.advance());
    assert!(!stream.advance());
    assert!(!stream.advance());
    let mut empty_stream = TinySegmenterTokenStream::new("");
    assert!(!empty_stream.advance());
    assert!(!empty_stream.advance());
}

#[test]
fn exhaustion_leaves_last_token_in_place() {
    let mut stream = TinySegmenterTokenStream::from_words(words(&["ab", "cd"]));
    while stream.advance() {}
    assert!(!stream.advance());
    let t = stream.token();
    assert_eq!(t.text, "cd");
    assert_eq!(t.offset_from, 2);
    assert_eq!(t.offset_to, 4);
    assert_eq!(t.position, 1);
}

#[test]
fn exact_token_sequence() {
    // The segmentation TinySegmenter produces for this sentence; each
    // of these characters is 3 bytes in UTF-8.
    let mut stream = TinySegmenterTokenStream::from_words(words(&[
        "私", "の", "名前", "は", "中野", "です",
    ]));
    let tokens = drain(&mut stream);
    let expected = [
        ("私", 0, 3),
        ("の", 3, 6),
        ("名前", 6, 12),
        ("は", 12, 15),
        ("中野", 15, 21),
        ("です", 21, 27),
    ];
    assert_eq!(tokens.len(), expected.len());
    for (i, (text, from, to)) in expected.iter().enumerate() {
        assert_eq!(tokens[i].0, *text);
        assert_eq!(tokens[i].1, *from);
        assert_eq!(tokens[i].2, *to);
        assert_eq!(tokens[i].3, i);
        assert_eq!(tokens[i].4, 1);
    }
}

#[test]
fn japanese_text_is_reconstructed() {
    let text = "日本語の本文";
    let mut stream = TinySegmenterTokenStream::from_words(words(&["日本語", "の", "本文"]));
    let tokens = drain(&mut stream);
    assert!(tokens.len() > 1);
    let concatenated: String = tokens.iter().map(|t| t.0.as_str()).collect();
    assert_eq!(concatenated, text);
    for (i, token) in tokens.iter().enumerate() {
        assert_eq!(token.3, i);
    }
}

#[test]
fn mixed_width_text_is_reconstructed() {
    // ASCII words are 1 byte per character, kana and kanji 3: the
    // offsets must follow the byte widths, not the character counts.
    let text = "TinySegmenterは25kBで書かれています。";
    let mut stream = TinySegmenterTokenStream::from_words(words(&[
        "TinySegmenter", "は", "2", "5", "kB", "で", "書か", "れ", "て", "い", "ます", "。",
    ]));
    let tokens = drain(&mut stream);
    let concatenated: String = tokens.iter().map(|t| t.0.as_str()).collect();
    assert_eq!(concatenated, text);
    assert_eq!(tokens[0].0, "TinySegmenter");
    assert_eq!(tokens[0].1, 0);
    assert_eq!(tokens[0].2, "TinySegmenter".len());
    assert_eq!(tokens[1].0, "は");
    assert_eq!(tokens[1].1, 13);
    assert_eq!(tokens[1].2, 16);
}

#[test]
fn whitespace_is_preserved() {
    let text = "こんにちは 世界";
    let mut stream = TinySegmenterTokenStream::from_words(words(&["こんにちは", " ", "世界"]));
    let tokens = drain(&mut stream);
    let concatenated: String = tokens.iter().map(|t| t.0.as_str()).collect();
    assert_eq!(concatenated, text);
    let total: usize = tokens.iter().map(|t| t.0.len()).sum();
    assert_eq!(total, text.len());
}

#[test]
fn spans_match_text_byte_length() {
    let mut stream = TinySegmenterTokenStream::from_words(words(&[
        "TinySegmenter", "は", "2", "5", "kB", "で", "書か", "れ", "て", "い", "ます", "。",
    ]));
    let tokens = drain(&mut stream);
    for token in &tokens {
        assert_eq!(token.2 - token.1, token.0.len());
    }
}

#[test]
fn adjacent_tokens_are_contiguous() {
    let text = "私の名前は中野です";
    let mut stream = TinySegmenterTokenStream::from_words(words(&[
        "私", "の", "名前", "は", "中野", "です",
    ]));
    let tokens = drain(&mut stream);
    assert_eq!(tokens[0].1, 0);
    for i in 0..tokens.len() - 1 {
        assert_eq!(tokens[i].2, tokens[i + 1].1);
    }
    assert_eq!(tokens[tokens.len() - 1].2, text.len());
}

#[test]
fn positions_are_sequential() {
    let mut stream = TinySegmenterTokenStream::from_words(words(&["日本語", "の", "本文"]));
    let tokens = drain(&mut stream);
    for (i, token) in tokens.iter().enumerate() {
        assert_eq!(token.3, i);
        assert_eq!(token.4, 1);
    }
}

#[test]
fn two_streams_from_same_words_agree() {
    let first_words = words(&["私", "の", "名前", "は", "中野", "です"]);
    let second_words = first_words.clone();
    let mut first = TinySegmenterTokenStream::from_words(first_words);
    let mut second = TinySegmenterTokenStream::from_words(second_words);
    let from_first = drain(&mut first);
    let from_second = drain(&mut second);
    assert_eq!(from_first, from_second);
}

#[test]
fn token_mut_rewrites_current_token() {
    let mut stream = TinySegmenterTokenStream::from_words(words(&["私", "の", "名前"]));
    assert!(stream.advance());
    {
        let t = stream.token_mut();
        assert_eq!(t.text, "私");
        t.text = String::from("わたし");
    }
    assert_eq!(stream.token().text, "わたし");
    // The stream itself is untouched: the next advance still produces
    // the second word with its true offsets.
    assert!(stream.advance());
    assert_eq!(stream.token().text, "の");
    assert_eq!(stream.token().offset_from, 3);
    assert_eq!(stream.token().offset_to, 6);
    assert_eq!(stream.token().position, 1);
}
