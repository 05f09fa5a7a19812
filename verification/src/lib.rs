//! The library of a command-line companion to a Japanese learning diary:
//! a diary of entries kept in SQLite, searchable through furigana and
//! umlauts, and a JMdict dictionary to look words up in.

pub mod cli;
pub mod clock;
pub mod decimal;
pub mod diarydb;
pub mod diarydb_entry;
pub mod dictionarydb;
pub mod error;
pub mod furigana;
pub mod like;
pub mod sql;
pub mod text;
