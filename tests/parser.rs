use html_tokenizer::{parse, Doctype, Document, DocumentData, NodeType, ParserState, Token};

#[test]
fn parse_records_doctype() {
    let doc = parse("  <!DOCTYPE html PUBLIC \"p\" \"s\">\n");
    let dt = doc.doctype.expect("doctype");
    assert_eq!(dt.name, "html");
    assert_eq!(dt.public_id, "p");
    assert_eq!(dt.system_id, "s");
}

#[test]
fn parse_without_doctype() {
    let doc = parse("<html>");
    assert!(doc.doctype.is_none());
}

#[test]
fn parse_missing_identifiers_are_empty() {
    let doc = parse("<!DOCTYPE html>");
    let dt = doc.doctype.expect("doctype");
    assert_eq!(dt.public_id, "");
    assert_eq!(dt.system_id, "");
}

#[test]
fn process_token_steps() {
    let mut doc = Document::new();
    assert_eq!(ParserState::Initial.process_token(&mut doc, Token::Char(' ')), Some(ParserState::Initial));
    let mut d = Doctype::new();
    d.name = "html".to_string();
    assert_eq!(
        ParserState::Initial.process_token(&mut doc, Token::Doctype(d.clone())),
        Some(ParserState::BeforeHtml)
    );
    assert_eq!(doc.doctype.as_ref().map(|t| t.name.as_str()), Some("html"));
    assert_eq!(ParserState::BeforeHtml.process_token(&mut doc, Token::Char('\n')), Some(ParserState::BeforeHtml));
    assert_eq!(ParserState::BeforeHtml.process_token(&mut doc, Token::Doctype(d)), None);
    assert_eq!(ParserState::BeforeHtml.process_token(&mut doc, Token::EOF), None);
    assert_eq!(ParserState::Initial.process_token(&mut doc, Token::Char('x')), None);
}

#[test]
fn document_data_url() {
    let d = DocumentData::new("http://example.com/".to_string());
    assert_eq!(d.url(), "http://example.com/");
    assert_eq!(NodeType::DocumentNode, NodeType::DocumentNode);
}
