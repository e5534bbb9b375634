//! The first tree-construction phases: the document's DOCTYPE, fed by the
//! token stream.
use vstd::prelude::*;
use crate::machine::{is_whitespace, tokenize};
use crate::token::{Token, TokenView};
use crate::tokenizer::Tokenizer;

verus! {

/// The DOCTYPE a document declares; missing identifiers are empty.
#[derive(Debug)]
pub struct DocumentType {
    pub name: String,
    pub public_id: String,
    pub system_id: String,
}

/// The document under construction.
#[derive(Debug)]
pub struct Document {
    pub doctype: Option<DocumentType>,
}

/// The document as name, public and system identifier of its DOCTYPE.
pub type DocumentView = Option<(Seq<char>, Seq<char>, Seq<char>)>;

impl View for Document {
    type V = DocumentView;

    open spec fn view(&self) -> DocumentView {
        match self.doctype {
            Some(d) => Some((d.name@, d.public_id@, d.system_id@)),
            None => None,
        }
    }
}

/// The insertion modes handled so far.
#[derive(Clone, Copy, Debug, PartialEq, Eq, Structural)]
pub enum ParserState {
    Initial,
    BeforeHtml,
}

/// How a token moves the parser: the next mode and document, or `None`
/// where no rule handles the token. Whitespace is skipped in both modes;
/// in the initial mode a DOCTYPE is recorded and leads to the next mode.
pub open spec fn process(st: ParserState, doc: DocumentView, t: TokenView) -> Option<
    (ParserState, DocumentView),
> {
    match t {
        TokenView::Char(c) => if is_whitespace(c) || c == '\r' {
            Some((st, doc))
        } else {
            None
        },
        TokenView::Doctype(d) => if st == ParserState::Initial {
            Some(
                (
                    ParserState::BeforeHtml,
                    Some(
                        (
                            d.name,
                            d.public_identifier.unwrap_or(Seq::empty()),
                            d.system_identifier.unwrap_or(Seq::empty()),
                        ),
                    ),
                ),
            )
        } else {
            None
        },
        _ => None,
    }
}

/// The document after feeding `ts` from `st`, stopping at the first token
/// that no rule handles.
pub open spec fn parse_tokens(st: ParserState, doc: DocumentView, ts: Seq<TokenView>) -> DocumentView
    decreases ts.len(),
{
    if ts.len() == 0 {
        doc
    } else {
        match process(st, doc, ts[0]) {
            Some((st2, doc2)) => parse_tokens(st2, doc2, ts.drop_first()),
            None => doc,
        }
    }
}

impl Document {
    /// A document with no DOCTYPE yet.
    pub fn new() -> (r: Document)
        ensures
            r@ is None,
    {
        Document { doctype: None }
    }
}

fn unwrap_or_empty(s: Option<String>) -> (r: String)
    ensures
        r@ == crate::token::opt_view(s).unwrap_or(Seq::empty()),
{
    match s {
        Some(v) => v,
        None => String::new(),
    }
}

impl ParserState {
    /// Feeds one token: returns the next mode, having updated `document`,
    /// or `None` (leaving `document` as it was) where no rule handles it.
    pub fn process_token(self, document: &mut Document, token: Token) -> (r: Option<ParserState>)
        ensures
            match process(self, old(document)@, token@) {
                Some((st, doc)) => r == Some(st) && final(document)@ == doc,
                None => r is None && final(document)@ == old(document)@,
            },
    {
        match token {
            Token::Char(c) => {
                if c == '\t' || c == '\n' || c == '\x0C' || c == '\r' || c == ' ' {
                    Some(self)
                } else {
                    None
                }
            },
            Token::Doctype(d) => {
                match self {
                    ParserState::Initial => {
                        document.doctype = Some(
                            DocumentType {
                                name: d.name,
                                public_id: unwrap_or_empty(d.public_identifier),
                                system_id: unwrap_or_empty(d.system_identifier),
                            },
                        );
                        Some(ParserState::BeforeHtml)
                    },
                    ParserState::BeforeHtml => None,
                }
            },
            _ => None,
        }
    }
}

/// Tokenizes `input` and feeds the tokens to the parser from the initial
/// mode, until a token that no rule handles (at the latest the end of
/// input).
pub fn parse(input: &str) -> (r: Document)
    ensures
        r@ == parse_tokens(ParserState::Initial, None, tokenize(input@)),
{
    let mut tokenizer = Tokenizer::new(input);
    let mut doc = Document::new();
    let mut state = ParserState::Initial;
    loop
        invariant
            tokenizer.wf(),
            parse_tokens(state, doc@, tokenizer.pending()) == parse_tokens(
                ParserState::Initial,
                None,
                tokenize(input@),
            ),
        decreases tokenizer.pending().len(),
    {
        match tokenizer.next() {
            Some(token) => {
                match state.process_token(&mut doc, token) {
                    Some(next) => {
                        state = next;
                    },
                    None => {
                        return doc;
                    },
                }
            },
            None => {
                return doc;
            },
        }
    }
}

} // verus!
