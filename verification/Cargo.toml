[package]
name = "tantivy_tokenizer_tiny_segmenter"
version = "0.1.0"
edition = "2021"
publish = false

[dependencies]
tinysegmenter = "*"
tantivy = "*"
