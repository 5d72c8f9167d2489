//! A small tokenizer for a scripting language: it turns source text into a
//! stream of classified tokens, one `next_token` call at a time.
#![allow(non_camel_case_types)]

pub mod laws;
pub mod lexer;
pub mod model;
pub mod token;
