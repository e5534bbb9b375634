//! An HTML tokenizer: turns a buffered character sequence into tags,
//! characters, comments and DOCTYPE tokens, following the WHATWG
//! tokenization rules, with every transition proved against its model.
//! Parse errors are recorded by position; malformed input never stops
//! the tokenizer.

pub mod text;
pub mod token;
pub mod entities;
pub mod charref;
pub mod machine;
pub mod states;
pub mod tokenizer;
pub mod laws;
pub mod html;
pub mod parser;
pub mod dom;

pub use dom::{DocumentData, NodeType};
pub use parser::{parse, Document, DocumentType, ParserState};
pub use token::{Attribute, Doctype, Tag, TagKind, Token};
pub use tokenizer::{tokenize_all, tokenize_with_errors, Tokenizer};
pub mod roundtrip;
