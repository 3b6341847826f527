//! Trains a WordPiece subword vocabulary from a text corpus, read either from
//! plain-text files or from the values of an embedded ordered key-value store.

pub mod corpus;
pub mod store;
pub mod wordpiece;
