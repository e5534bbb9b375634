use html_tokenizer::{tokenize_all, Attribute, Tag, TagKind, Token};

fn text(s: &str) -> Vec<Token> {
    let mut v: Vec<Token> = s.chars().map(Token::Char).collect();
    v.push(Token::EOF);
    v
}

fn attr_value(input: &str) -> String {
    match &tokenize_all(input)[0] {
        Token::Tag(Tag { attributes, .. }) => attributes[0].value.clone(),
        other => panic!("not a tag: {:?}", other),
    }
}

#[test]
fn hexadecimal_reference() {
    assert_eq!(tokenize_all("&#x41;&#X62;"), text("Ab"));
}

#[test]
fn reference_without_semicolon() {
    assert_eq!(tokenize_all("&#65x"), text("Ax"));
}

#[test]
fn windows_1252_remapping() {
    assert_eq!(tokenize_all("&#128;&#x99;"), text("\u{20AC}\u{2122}"));
}

#[test]
fn invalid_code_points_become_replacement() {
    assert_eq!(tokenize_all("&#0;"), text("\u{FFFD}"));
    assert_eq!(tokenize_all("&#xD800;"), text("\u{FFFD}"));
    assert_eq!(tokenize_all("&#x110000;"), text("\u{FFFD}"));
    assert_eq!(tokenize_all("&#99999999999;"), text("\u{FFFD}"));
}

#[test]
fn numeric_reference_without_digits_is_literal() {
    assert_eq!(tokenize_all("&#;"), text("&#;"));
    assert_eq!(tokenize_all("&#xg"), text("&#xg"));
}

#[test]
fn longest_named_match() {
    assert_eq!(tokenize_all("&notin;"), text("\u{2209}"));
    assert_eq!(tokenize_all("&notit;"), text("\u{AC}it;"));
}

#[test]
fn legacy_name_without_semicolon() {
    assert_eq!(tokenize_all("&copy 2024"), text("\u{A9} 2024"));
    assert_eq!(tokenize_all("&amp"), text("&"));
}

#[test]
fn non_legacy_name_needs_semicolon() {
    assert_eq!(tokenize_all("&hellip;"), text("\u{2026}"));
    assert_eq!(tokenize_all("&hellip"), text("&hellip"));
}

#[test]
fn two_character_reference() {
    assert_eq!(tokenize_all("&nvlt;"), text("<\u{20D2}"));
}

#[test]
fn unknown_name_is_literal() {
    assert_eq!(tokenize_all("&bogus;"), text("&bogus;"));
    assert_eq!(tokenize_all("a & b"), text("a & b"));
}

#[test]
fn references_in_attribute_values() {
    assert_eq!(attr_value("<a title=\"x&lt;y\">"), "x<y");
    assert_eq!(attr_value("<a title='&#33;'>"), "!");
    assert_eq!(attr_value("<a title=a&amp;b>"), "a&b");
}

#[test]
fn ambiguous_ampersand_in_attribute() {
    assert_eq!(attr_value("<a href=\"?a=1&copy=2\">"), "?a=1&copy=2");
    assert_eq!(attr_value("<a href=\"?x&copyz\">"), "?x&copyz");
    assert_eq!(attr_value("<a href=\"&copy;=\">"), "\u{A9}=");
    assert_eq!(attr_value("<a href=\"&copy \">"), "\u{A9} ");
}

#[test]
fn attribute_constructor_in_tag() {
    let t = Tag { kind: TagKind::Start, name: "a".to_string(), self_closing: false, attributes: vec![Attribute::new()] };
    assert_eq!(t.attributes[0].value, "");
}
