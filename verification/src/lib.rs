//! Lexing, dialect grammar composition and parsing for SQL text.

pub mod closure;
pub mod config;
pub mod dialect;
pub mod dialects;
pub mod engine;
pub mod errors;
pub mod grammar;
pub mod isolation;
pub mod lexer;
pub mod lint;
pub mod markers;
pub mod parser;
pub mod matching;
pub mod reflow;
pub mod regexp;
pub mod resolve;
pub mod rules;
pub mod segments;
pub mod sets;
pub mod smol;
pub mod syntax;
pub mod templater;
pub mod text;
