//! Writing tokens back out as markup.
use vstd::prelude::*;
use crate::text::push_char;
use crate::token::{
    Attribute, AttributeView, Doctype, DoctypeView, Tag, TagKind, TagView, Token, TokenView,
};

verus! {

/// `name="value"`.
pub open spec fn attribute_html(a: AttributeView) -> Seq<char> {
    a.name + seq!['=', '"'] + a.value + seq!['"']
}

/// Each attribute preceded by a space.
pub open spec fn attributes_html(attrs: Seq<AttributeView>) -> Seq<char>
    decreases attrs.len(),
{
    if attrs.len() == 0 {
        Seq::empty()
    } else {
        attributes_html(attrs.drop_last()) + seq![' '] + attribute_html(attrs.last())
    }
}

/// `<name a="v">`, `</name>`, or `<name a="v"/>` when self-closing.
pub open spec fn tag_html(t: TagView) -> Seq<char> {
    (if t.kind == TagKind::End {
        seq!['<', '/']
    } else {
        seq!['<']
    }) + t.name + attributes_html(t.attributes) + (if t.self_closing {
        seq!['/', '>']
    } else {
        seq!['>']
    })
}

/// `"id"`, or nothing for a missing identifier.
pub open spec fn quoted(id: Option<Seq<char>>) -> Seq<char> {
    match id {
        Some(v) => seq![' ', '"'] + v + seq!['"'],
        None => Seq::empty(),
    }
}

/// `<!DOCTYPE name PUBLIC "p" "s">`, `<!DOCTYPE name SYSTEM "s">` or
/// `<!DOCTYPE name>`.
pub open spec fn doctype_html(d: DoctypeView) -> Seq<char> {
    seq!['<', '!', 'D', 'O', 'C', 'T', 'Y', 'P', 'E', ' '] + d.name + (if d.public_identifier is Some {
        seq![' ', 'P', 'U', 'B', 'L', 'I', 'C'] + quoted(d.public_identifier) + quoted(
            d.system_identifier,
        )
    } else if d.system_identifier is Some {
        seq![' ', 'S', 'Y', 'S', 'T', 'E', 'M'] + quoted(d.system_identifier)
    } else {
        Seq::empty()
    }) + seq!['>']
}

/// The markup for one token; the end of input writes nothing.
pub open spec fn token_html(t: TokenView) -> Seq<char> {
    match t {
        TokenView::EOF => Seq::empty(),
        TokenView::Char(c) => seq![c],
        TokenView::Tag(tag) => tag_html(tag),
        TokenView::Comment(text) => seq!['<', '!', '-', '-'] + text + seq!['-', '-', '>'],
        TokenView::Doctype(d) => doctype_html(d),
    }
}

/// The markup for a token sequence, token after token.
pub open spec fn tokens_html(ts: Seq<TokenView>) -> Seq<char>
    decreases ts.len(),
{
    if ts.len() == 0 {
        Seq::empty()
    } else {
        tokens_html(ts.drop_last()) + token_html(ts.last())
    }
}

fn append_string(dst: &mut String, src: &String)
    ensures
        final(dst)@ =~= old(dst)@ + src@,
{
    let s = src.as_str();
    let n = s.unicode_len();
    let mut i: usize = 0;
    while i < n
        invariant
            n == s@.len(),
            s@ == src@,
            i <= n,
            dst@ =~= old(dst)@ + s@.take(i as int),
        decreases n - i,
    {
        push_char(dst, s.get_char(i));
        assert(s@.take(i + 1) =~= s@.take(i as int).push(s@[i as int]));
        i = i + 1;
    }
    assert(s@.take(n as int) =~= s@);
}

fn append_chars(dst: &mut String, cs: &[char])
    ensures
        final(dst)@ =~= old(dst)@ + cs@,
{
    let mut i: usize = 0;
    while i < cs.len()
        invariant
            i <= cs.len(),
            dst@ =~= old(dst)@ + cs@.take(i as int),
        decreases cs.len() - i,
    {
        push_char(dst, cs[i]);
        assert(cs@.take(i + 1) =~= cs@.take(i as int).push(cs@[i as int]));
        i = i + 1;
    }
    assert(cs@.take(cs.len() as int) =~= cs@);
}

fn append_quoted(dst: &mut String, id: &Option<String>)
    ensures
        final(dst)@ =~= old(dst)@ + quoted(crate::token::opt_view(*id)),
{
    match id {
        Some(v) => {
            append_chars(dst, &[' ', '"']);
            append_string(dst, v);
            append_chars(dst, &['"']);
        },
        None => {},
    }
}

impl Attribute {
    /// The attribute as `name="value"`.
    pub fn to_html(&self) -> (r: String)
        ensures
            r@ == attribute_html(self@),
    {
        let mut r = String::new();
        append_string(&mut r, &self.name);
        append_chars(&mut r, &['=', '"']);
        append_string(&mut r, &self.value);
        append_chars(&mut r, &['"']);
        r
    }
}

impl Tag {
    /// The tag as markup.
    pub fn to_html(&self) -> (r: String)
        ensures
            r@ == tag_html(self@),
    {
        let mut r = String::new();
        match self.kind {
            TagKind::End => append_chars(&mut r, &['<', '/']),
            TagKind::Start => append_chars(&mut r, &['<']),
        }
        append_string(&mut r, &self.name);
        let ghost head = r@;
        let mut i: usize = 0;
        while i < self.attributes.len()
            invariant
                i <= self.attributes.len(),
                r@ =~= head + attributes_html(self@.attributes.take(i as int)),
            decreases self.attributes.len() - i,
        {
            let a = self.attributes[i].to_html();
            append_chars(&mut r, &[' ']);
            append_string(&mut r, &a);
            assert(self@.attributes.take(i + 1).drop_last() =~= self@.attributes.take(i as int));
            i = i + 1;
        }
        assert(self@.attributes.take(self.attributes.len() as int) =~= self@.attributes);
        if self.self_closing {
            append_chars(&mut r, &['/', '>']);
        } else {
            append_chars(&mut r, &['>']);
        }
        r
    }
}

impl Doctype {
    /// The DOCTYPE as markup.
    pub fn to_html(&self) -> (r: String)
        ensures
            r@ == doctype_html(self@),
    {
        let mut r = String::new();
        append_chars(&mut r, &['<', '!', 'D', 'O', 'C', 'T', 'Y', 'P', 'E', ' ']);
        append_string(&mut r, &self.name);
        if self.public_identifier.is_some() {
            append_chars(&mut r, &[' ', 'P', 'U', 'B', 'L', 'I', 'C']);
            append_quoted(&mut r, &self.public_identifier);
            append_quoted(&mut r, &self.system_identifier);
        } else if self.system_identifier.is_some() {
            append_chars(&mut r, &[' ', 'S', 'Y', 'S', 'T', 'E', 'M']);
            append_quoted(&mut r, &self.system_identifier);
        }
        append_chars(&mut r, &['>']);
        r
    }
}

impl Token {
    /// The token as markup; the end of input writes nothing.
    pub fn to_html(&self) -> (r: String)
        ensures
            r@ == token_html(self@),
    {
        match self {
            Token::EOF => String::new(),
            Token::Char(c) => {
                let mut r = String::new();
                push_char(&mut r, *c);
                assert(r@ =~= seq![*c]);
                r
            },
            Token::Tag(t) => t.to_html(),
            Token::Comment(text) => {
                let mut r = String::new();
                append_chars(&mut r, &['<', '!', '-', '-']);
                append_string(&mut r, text);
                append_chars(&mut r, &['-', '-', '>']);
                r
            },
            Token::Doctype(d) => d.to_html(),
        }
    }
}

} // verus!
