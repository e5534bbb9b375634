use html_tokenizer::{tokenize_with_errors, Token, Tokenizer};

fn errors(input: &str) -> Vec<usize> {
    tokenize_with_errors(input).1
}

#[test]
fn well_formed_input_has_no_errors() {
    assert_eq!(errors("<!DOCTYPE html><p class=\"a\">x &amp; y</p><!-- c -->"), Vec::<usize>::new());
}

#[test]
fn null_character_is_reported() {
    assert_eq!(errors("ab\0"), vec![2]);
}

#[test]
fn end_of_input_in_tag_is_reported() {
    assert_eq!(errors("<div"), vec![4]);
}

#[test]
fn missing_semicolon_is_reported() {
    assert_eq!(errors("&#65x"), vec![0]);
    assert_eq!(errors("&copy x"), vec![0]);
}

#[test]
fn bad_code_point_is_reported() {
    assert_eq!(errors("&#0;"), vec![0]);
    assert_eq!(errors("&#128;"), vec![0]);
}

#[test]
fn unknown_named_reference_is_reported() {
    assert_eq!(errors("&bogus;"), vec![0]);
    assert_eq!(errors("&bogus"), Vec::<usize>::new());
}

#[test]
fn missing_whitespace_between_attributes_is_reported() {
    assert_eq!(errors("<a b=\"1\"c=\"2\">"), vec![8]);
}

#[test]
fn bad_doctype_keyword_is_reported() {
    assert_eq!(errors("<!DOCTYPE html BOGUS>"), vec![15]);
}

#[test]
fn stray_less_than_is_reported() {
    assert_eq!(errors("a < b"), vec![3]);
}

#[test]
fn errors_are_recorded_as_tokens_are_pulled() {
    let mut t = Tokenizer::new("a\0<");
    assert!(t.parse_errors().is_empty());
    assert_eq!(t.next(), Some(Token::Char('a')));
    assert_eq!(t.next(), Some(Token::Char('\u{FFFD}')));
    assert_eq!(t.parse_errors(), &vec![1]);
    assert_eq!(t.next(), Some(Token::Char('<')));
    assert_eq!(t.next(), Some(Token::EOF));
    assert_eq!(t.next(), None);
    assert_eq!(t.parse_errors(), &vec![1, 3]);
}

#[test]
fn self_closing_end_tag_is_reported() {
    assert_eq!(errors("</br/>"), vec![5]);
}
