use html_tokenizer::{tokenize_all, Attribute, Doctype, Tag, TagKind, Token, Tokenizer};

fn start(name: &str, attrs: &[(&str, &str)], self_closing: bool) -> Token {
    Token::Tag(Tag {
        kind: TagKind::Start,
        name: name.to_string(),
        self_closing,
        attributes: attrs
            .iter()
            .map(|(n, v)| Attribute { name: n.to_string(), value: v.to_string() })
            .collect(),
    })
}

fn end(name: &str) -> Token {
    Token::Tag(Tag {
        kind: TagKind::End,
        name: name.to_string(),
        self_closing: false,
        attributes: vec![],
    })
}

fn doctype(name: &str, public: Option<&str>, system: Option<&str>, quirks: bool) -> Token {
    Token::Doctype(Doctype {
        name: name.to_string(),
        public_identifier: public.map(|s| s.to_string()),
        system_identifier: system.map(|s| s.to_string()),
        force_quirks: quirks,
    })
}

fn chars(s: &str) -> Vec<Token> {
    s.chars().map(Token::Char).collect()
}

fn ends_with_single_eof(tokens: &[Token]) -> bool {
    tokens.last() == Some(&Token::EOF)
        && tokens.iter().filter(|t| **t == Token::EOF).count() == 1
}

#[test]
fn single_end_of_input_on_varied_inputs() {
    for input in [
        "",
        "plain",
        "<p>a</p>",
        "<div",
        "<a href='x",
        "<!--",
        "<!DOCTYPE",
        "&",
        "</",
        "<",
        "<![CDATA[x",
        "<?",
    ] {
        let tokens = tokenize_all(input);
        assert!(ends_with_single_eof(&tokens), "{:?}: {:?}", input, tokens);
    }
}

#[test]
fn pulls_after_end_yield_nothing() {
    let mut t = Tokenizer::new("a");
    assert_eq!(t.next(), Some(Token::Char('a')));
    assert_eq!(t.next(), Some(Token::EOF));
    assert_eq!(t.next(), None);
    assert_eq!(t.next(), None);
}

#[test]
fn tag_names_are_lowercased() {
    assert_eq!(tokenize_all("<DIV>"), vec![start("div", &[], false), Token::EOF]);
    assert_eq!(tokenize_all("</DiV>"), vec![end("div"), Token::EOF]);
}

#[test]
fn doctype_names_are_lowercased() {
    assert_eq!(
        tokenize_all("<!doctype HTML>"),
        vec![doctype("html", None, None, false), Token::EOF]
    );
}

#[test]
fn attribute_names_are_lowercased() {
    assert_eq!(
        tokenize_all("<a HREF=\"X\">"),
        vec![start("a", &[("href", "X")], false), Token::EOF]
    );
}

#[test]
fn duplicate_attribute_first_wins() {
    assert_eq!(
        tokenize_all("<input id=1 id=2>"),
        vec![start("input", &[("id", "1")], false), Token::EOF]
    );
}

#[test]
fn self_closing_detection() {
    assert_eq!(tokenize_all("<br/>"), vec![start("br", &[], true), Token::EOF]);
    assert_eq!(tokenize_all("<br>"), vec![start("br", &[], false), Token::EOF]);
}

#[test]
fn self_closing_after_valueless_attribute() {
    assert_eq!(
        tokenize_all("<input disabled/>"),
        vec![start("input", &[("disabled", "")], true), Token::EOF]
    );
}

#[test]
fn doctype_minimal_form() {
    assert_eq!(
        tokenize_all("<!DOCTYPE html>"),
        vec![doctype("html", None, None, false), Token::EOF]
    );
}

#[test]
fn doctype_with_identifiers() {
    let input = "<!DOCTYPE html PUBLIC \"-//W3C//DTD HTML 4.01//EN\" \"http://www.w3.org/TR/html4/strict.dtd\">";
    assert_eq!(
        tokenize_all(input),
        vec![
            doctype(
                "html",
                Some("-//W3C//DTD HTML 4.01//EN"),
                Some("http://www.w3.org/TR/html4/strict.dtd"),
                false
            ),
            Token::EOF
        ]
    );
}

#[test]
fn doctype_system_only() {
    assert_eq!(
        tokenize_all("<!DOCTYPE html SYSTEM 'about:legacy-compat'>"),
        vec![doctype("html", None, Some("about:legacy-compat"), false), Token::EOF]
    );
}

#[test]
fn doctype_bad_keyword_forces_quirks() {
    assert_eq!(
        tokenize_all("<!DOCTYPE html BOGUS>"),
        vec![doctype("html", None, None, true), Token::EOF]
    );
}

#[test]
fn doctype_cut_short_forces_quirks() {
    assert_eq!(
        tokenize_all("<!DOCTYPE html"),
        vec![doctype("html", None, None, true), Token::EOF]
    );
}

#[test]
fn text_and_nested_tags() {
    assert_eq!(
        tokenize_all("<p>a<b>c</b></p>"),
        vec![
            start("p", &[], false),
            Token::Char('a'),
            start("b", &[], false),
            Token::Char('c'),
            end("b"),
            end("p"),
            Token::EOF
        ]
    );
}

#[test]
fn numeric_character_reference() {
    assert_eq!(tokenize_all("&#65;"), vec![Token::Char('A'), Token::EOF]);
}

#[test]
fn named_character_reference() {
    assert_eq!(tokenize_all("&amp;"), vec![Token::Char('&'), Token::EOF]);
}

#[test]
fn abrupt_end_mid_tag() {
    assert_eq!(tokenize_all("<div"), vec![start("div", &[], false), Token::EOF]);
}

#[test]
fn abrupt_end_mid_attribute_value() {
    assert_eq!(
        tokenize_all("<a href=\"x"),
        vec![start("a", &[("href", "x")], false), Token::EOF]
    );
}

#[test]
fn quoted_and_unquoted_values() {
    assert_eq!(
        tokenize_all("<form method='POST' action=/form >"),
        vec![start("form", &[("method", "POST"), ("action", "/form")], false), Token::EOF]
    );
}

#[test]
fn less_than_in_unquoted_value_is_kept() {
    assert_eq!(
        tokenize_all("<a b=c<d>"),
        vec![start("a", &[("b", "c<d")], false), Token::EOF]
    );
}

#[test]
fn null_becomes_replacement_character() {
    assert_eq!(tokenize_all("a\0"), vec![Token::Char('a'), Token::Char('\u{FFFD}'), Token::EOF]);
    assert_eq!(tokenize_all("<a\0>"), vec![start("a\u{FFFD}", &[], false), Token::EOF]);
}

#[test]
fn comment_token() {
    assert_eq!(
        tokenize_all("<!-- hi -->x"),
        vec![Token::Comment(" hi ".to_string()), Token::Char('x'), Token::EOF]
    );
}

#[test]
fn comment_with_inner_dashes() {
    assert_eq!(
        tokenize_all("<!--a--b--->"),
        vec![Token::Comment("a--b-".to_string()), Token::EOF]
    );
}

#[test]
fn unterminated_comment_is_emitted() {
    assert_eq!(tokenize_all("<!--ab"), vec![Token::Comment("ab".to_string()), Token::EOF]);
}

#[test]
fn unknown_declaration_is_bogus_comment() {
    assert_eq!(
        tokenize_all("<!ELEMENT br EMPTY>"),
        vec![Token::Comment("ELEMENT br EMPTY".to_string()), Token::EOF]
    );
    assert_eq!(
        tokenize_all("<?xml version?>"),
        vec![Token::Comment("?xml version?".to_string()), Token::EOF]
    );
}

#[test]
fn cdata_section_as_characters() {
    let mut expected = chars("a]b");
    expected.push(Token::EOF);
    assert_eq!(tokenize_all("<![CDATA[a]b]]>"), expected);
}

#[test]
fn stray_less_than_is_text() {
    assert_eq!(
        tokenize_all("a < b"),
        vec![
            Token::Char('a'),
            Token::Char(' '),
            Token::Char('<'),
            Token::Char(' '),
            Token::Char('b'),
            Token::EOF
        ]
    );
}

#[test]
fn empty_end_tag_is_dropped() {
    assert_eq!(tokenize_all("</>x"), vec![Token::Char('x'), Token::EOF]);
}

#[test]
fn end_of_input_after_less_than() {
    assert_eq!(tokenize_all("<"), vec![Token::Char('<'), Token::EOF]);
    assert_eq!(tokenize_all("</"), vec![Token::Char('<'), Token::Char('/'), Token::EOF]);
}

#[test]
fn reserializing_reproduces_tokens() {
    let input = "<div class=\"a b\" id='x'>hi<br/><img src=\"p.png\" alt=\"\"/></div>";
    let first = tokenize_all(input);
    let markup: String = first.iter().map(|t| t.to_html()).collect();
    let second = tokenize_all(&markup);
    assert_eq!(first, second);
}

#[test]
fn serializes_tag_attribute_and_doctype() {
    assert_eq!(start("a", &[("href", "x")], false).to_html(), "<a href=\"x\">");
    assert_eq!(start("br", &[], true).to_html(), "<br/>");
    assert_eq!(end("p").to_html(), "</p>");
    assert_eq!(
        doctype("html", Some("p"), Some("s"), false).to_html(),
        "<!DOCTYPE html PUBLIC \"p\" \"s\">"
    );
    assert_eq!(doctype("html", None, Some("s"), false).to_html(), "<!DOCTYPE html SYSTEM \"s\">");
    assert_eq!(Token::Comment("c".to_string()).to_html(), "<!--c-->");
    assert_eq!(Token::EOF.to_html(), "");
    assert_eq!(Attribute { name: "n".to_string(), value: "v".to_string() }.to_html(), "n=\"v\"");
}

#[test]
fn tag_helpers() {
    let mut t = Tag::new(TagKind::Start);
    assert_eq!(t.name, "");
    t.add_attribute(Attribute { name: "a".to_string(), value: "1".to_string() });
    t.add_attribute(Attribute { name: "a".to_string(), value: "2".to_string() });
    t.add_attribute(Attribute { name: "b".to_string(), value: "3".to_string() });
    assert_eq!(t.attributes.len(), 2);
    assert_eq!(t.attributes[0].value, "1");
    assert_eq!(t.attributes[1].name, "b");
    let d = Doctype::new();
    assert_eq!(d.public_identifier, None);
    assert!(!d.force_quirks);
    let a = Attribute::new();
    assert_eq!(a.name, "");
}

#[test]
fn end_tag_keeps_self_closing_false() {
    assert_eq!(tokenize_all("</br/>"), vec![end("br"), Token::EOF]);
}
