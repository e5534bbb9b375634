//! The executable tokenizer state and its step, proved equal to the model
//! in `machine`.
use vstd::prelude::*;
use std::collections::VecDeque;
use crate::charref::{reference_error, resolve_reference};
use crate::machine;
use crate::machine::{
    char_token, char_tokens, is_ascii_alpha, parse_error, lemma_step_progress, measure, is_whitespace, keyword_at, name_char, text_char, Phase, StateView,
    StepResult,
};
use crate::text::{ascii_lower, lower, push_char};
use crate::token::{
    Attribute, Doctype, DoctypeView, Tag, TagKind, TagView, Token, views,
};

verus! {

/// The tokenizer's state: the phase, the position of the next input
/// character, and the tokens under construction.
pub struct TokenizerState {
    pub phase: Phase,
    pub pos: usize,
    pub tag: Tag,
    pub attribute: Attribute,
    pub doctype: Doctype,
    pub comment: String,
}

impl View for TokenizerState {
    type V = StateView;

    open spec fn view(&self) -> StateView {
        StateView {
            phase: self.phase,
            pos: self.pos as int,
            tag: self.tag@,
            attribute: self.attribute@,
            doctype: self.doctype@,
            comment: self.comment@,
        }
    }
}

/// The state moved from `st0` to `st1` and the queue from `q0` to `q1` as
/// `r` says.
pub open spec fn stepped(
    st0: StateView,
    st1: StateView,
    q0: Seq<Token>,
    q1: Seq<Token>,
    r: StepResult,
) -> bool {
    &&& st1 == r.0
    &&& views(q1) =~= views(q0) + r.1
}

fn is_whitespace_exec(c: char) -> (r: bool)
    ensures
        r == is_whitespace(c),
{
    c == '\t' || c == '\n' || c == '\x0C' || c == ' '
}

fn is_ascii_alpha_exec(c: char) -> (r: bool)
    ensures
        r == is_ascii_alpha(c),
{
    ('a' <= c && c <= 'z') || ('A' <= c && c <= 'Z')
}

fn text_char_exec(c: char) -> (r: char)
    ensures
        r == text_char(c),
{
    if c == '\0' {
        '\u{FFFD}'
    } else {
        c
    }
}

fn name_char_exec(c: char) -> (r: char)
    ensures
        r == name_char(c),
{
    if c == '\0' {
        '\u{FFFD}'
    } else {
        ascii_lower(c)
    }
}

/// Whether `kw` stands in `s` at `p` (ignoring ASCII case with `fold`).
fn keyword_at_exec(s: &Vec<char>, p: usize, kw: &str, fold: bool) -> (r: bool)
    ensures
        r == keyword_at(s@, p as int, kw@, fold),
{
    let n = kw.unicode_len();
    if p > s.len() || n > s.len() - p {
        return false;
    }
    let mut k: usize = 0;
    while k < n
        invariant
            n == kw@.len(),
            p + n <= s.len(),
            k <= n,
            forall|j: int|
                0 <= j < k ==> if fold {
                    lower(#[trigger] s@[p + j]) == lower(kw@[j])
                } else {
                    s@[p + j] == kw@[j]
                },
        decreases n - k,
    {
        let a = s[p + k];
        let b = kw.get_char(k);
        let same = if fold {
            ascii_lower(a) == ascii_lower(b)
        } else {
            a == b
        };
        if !same {
            return false;
        }
        k = k + 1;
    }
    true
}

fn emit(out: &mut VecDeque<Token>, t: Token)
    ensures
        views(final(out)@) =~= views(old(out)@) + seq![t@],
{
    out.push_back(t);
}

/// Emits each character as a character token.
fn emit_chars(out: &mut VecDeque<Token>, cs: &Vec<char>)
    ensures
        views(final(out)@) =~= views(old(out)@) + char_tokens(cs@),
{
    let mut i: usize = 0;
    while i < cs.len()
        invariant
            i <= cs.len(),
            views(out@) =~= views(old(out)@) + char_tokens(cs@.take(i as int)),
        decreases cs.len() - i,
    {
        emit(out, Token::Char(cs[i]));
        assert(cs@.take(i + 1) =~= cs@.take(i as int).push(cs@[i as int]));
        assert(char_tokens(cs@.take(i + 1)) =~= char_tokens(cs@.take(i as int)).push(
            char_token(cs@[i as int]),
        ));
        i = i + 1;
    }
    assert(cs@.take(cs.len() as int) =~= cs@);
}

/// Appends one character to `dst`, as a one-character sequence.
fn append_char(dst: &mut String, c: char)
    ensures
        final(dst)@ =~= old(dst)@ + seq![c],
{
    push_char(dst, c);
}

/// Appends each character to `dst`.
fn append_chars(dst: &mut String, cs: &Vec<char>)
    ensures
        final(dst)@ =~= old(dst)@ + cs@,
{
    let mut i: usize = 0;
    while i < cs.len()
        invariant
            i <= cs.len(),
            dst@ =~= old(dst)@ + cs@.take(i as int),
        decreases cs.len() - i,
    {
        push_char(dst, cs[i]);
        assert(cs@.take(i + 1) =~= cs@.take(i as int).push(cs@[i as int]));
        i = i + 1;
    }
    assert(cs@.take(cs.len() as int) =~= cs@);
}

impl TokenizerState {
    /// The state a tokenizer starts in.
    pub fn new() -> (r: TokenizerState)
        ensures
            r@ == StateView::initial(),
    {
        TokenizerState {
            phase: Phase::Data,
            pos: 0,
            tag: Tag::new(TagKind::Start),
            attribute: Attribute::new(),
            doctype: Doctype::new(),
            comment: String::new(),
        }
    }

    fn go(&mut self, phase: Phase, n: usize)
        requires
            old(self).pos + n <= usize::MAX,
        ensures
            final(self)@ == old(self)@.go(phase, n as int),
    {
        self.phase = phase;
        self.pos = self.pos + n;
    }

    fn commit_attribute(&mut self)
        ensures
            final(self)@ == old(self)@.commit_attribute(),
    {
        let mut a = Attribute::new();
        core::mem::swap(&mut a, &mut self.attribute);
        self.tag.add_attribute(a);
    }

    fn take_tag(&mut self) -> (t: Tag)
        ensures
            t@ == old(self)@.tag,
            final(self)@ == (StateView { tag: TagView::empty(TagKind::Start), ..old(self)@ }),
    {
        let mut t = Tag::new(TagKind::Start);
        core::mem::swap(&mut t, &mut self.tag);
        t
    }

    fn take_doctype(&mut self) -> (d: Doctype)
        ensures
            d@ == old(self)@.doctype,
            final(self)@ == (StateView { doctype: DoctypeView::empty(), ..old(self)@ }),
    {
        let mut d = Doctype::new();
        core::mem::swap(&mut d, &mut self.doctype);
        d
    }

    fn take_comment(&mut self) -> (c: String)
        ensures
            c@ == old(self)@.comment,
            final(self)@ == (StateView { comment: Seq::empty(), ..old(self)@ }),
    {
        let mut c = String::new();
        core::mem::swap(&mut c, &mut self.comment);
        c
    }

    fn emit_tag(&mut self, out: &mut VecDeque<Token>)
        requires
            old(self).pos < usize::MAX,
        ensures
            stepped(old(self)@, final(self)@, old(out)@, final(out)@, old(self)@.emit_tag()),
    {
        let t = self.take_tag();
        emit(out, Token::Tag(t));
        self.go(Phase::Data, 1);
    }

    fn tag_at_end(&mut self, out: &mut VecDeque<Token>)
        ensures
            stepped(old(self)@, final(self)@, old(out)@, final(out)@, old(self)@.tag_at_end()),
    {
        let t = self.take_tag();
        emit(out, Token::Tag(t));
        emit(out, Token::EOF);
        self.go(Phase::EOF, 0);
    }

    fn emit_comment(&mut self, out: &mut VecDeque<Token>)
        requires
            old(self).pos < usize::MAX,
        ensures
            stepped(old(self)@, final(self)@, old(out)@, final(out)@, old(self)@.emit_comment()),
    {
        let c = self.take_comment();
        emit(out, Token::Comment(c));
        self.go(Phase::Data, 1);
    }

    fn comment_at_end(&mut self, out: &mut VecDeque<Token>)
        ensures
            stepped(
                old(self)@,
                final(self)@,
                old(out)@,
                final(out)@,
                old(self)@.comment_at_end(),
            ),
    {
        let c = self.take_comment();
        emit(out, Token::Comment(c));
        emit(out, Token::EOF);
        self.go(Phase::EOF, 0);
    }

    fn emit_doctype(&mut self, out: &mut VecDeque<Token>)
        requires
            old(self).pos < usize::MAX,
        ensures
            stepped(old(self)@, final(self)@, old(out)@, final(out)@, old(self)@.emit_doctype()),
    {
        let d = self.take_doctype();
        emit(out, Token::Doctype(d));
        self.go(Phase::Data, 1);
    }

    fn doctype_at_end(&mut self, out: &mut VecDeque<Token>)
        ensures
            stepped(
                old(self)@,
                final(self)@,
                old(out)@,
                final(out)@,
                old(self)@.doctype_at_end(),
            ),
    {
        let mut d = self.take_doctype();
        d.force_quirks = true;
        emit(out, Token::Doctype(d));
        emit(out, Token::EOF);
        self.go(Phase::EOF, 0);
    }

    fn end_of_input(&mut self, out: &mut VecDeque<Token>)
        ensures
            stepped(old(self)@, final(self)@, old(out)@, final(out)@, old(self)@.end_of_input()),
    {
        emit(out, Token::EOF);
        self.go(Phase::EOF, 0);
    }
}


/// The contract shared by the steps of the phases: the state and the queue
/// move as the model's step for that phase says.
impl TokenizerState {
    fn step_data(&mut self, s: &Vec<char>, out: &mut VecDeque<Token>)
        requires
            old(self).pos <= s.len(),
        ensures
            stepped(old(self)@, final(self)@, old(out)@, final(out)@, machine::step_data(old(self)@, s@)),
    {
        if self.pos >= s.len() {
            self.end_of_input(out);
            return;
        }
        let c = s[self.pos];
        if c == '&' {
            let (cs, next) = resolve_reference(s, self.pos + 1, false);
            emit_chars(out, &cs);
            self.pos = next;
        } else if c == '<' {
            self.go(Phase::TagOpen, 1);
        } else {
            emit(out, Token::Char(text_char_exec(c)));
            self.go(Phase::Data, 1);
        }
    }

    fn step_tag_open(&mut self, s: &Vec<char>, out: &mut VecDeque<Token>)
        requires
            old(self).pos <= s.len(),
        ensures
            stepped(
                old(self)@,
                final(self)@,
                old(out)@,
                final(out)@,
                machine::step_tag_open(old(self)@, s@),
            ),
    {
        if self.pos >= s.len() {
            emit(out, Token::Char('<'));
            emit(out, Token::EOF);
            self.go(Phase::EOF, 0);
            return;
        }
        let c = s[self.pos];
        if c == '!' {
            self.go(Phase::MarkupDeclarationOpen, 1);
        } else if c == '/' {
            self.go(Phase::EndTagOpen, 1);
        } else if is_ascii_alpha_exec(c) {
            let mut t = Tag::new(TagKind::Start);
            push_char(&mut t.name, ascii_lower(c));
            self.tag = t;
            self.go(Phase::TagName, 1);
        } else if c == '?' {
            self.comment = String::new();
            self.go(Phase::BogusComment, 0);
        } else {
            emit(out, Token::Char('<'));
            self.go(Phase::Data, 0);
        }
    }

    fn step_end_tag_open(&mut self, s: &Vec<char>, out: &mut VecDeque<Token>)
        requires
            old(self).pos <= s.len(),
        ensures
            stepped(
                old(self)@,
                final(self)@,
                old(out)@,
                final(out)@,
                machine::step_end_tag_open(old(self)@, s@),
            ),
    {
        if self.pos >= s.len() {
            emit(out, Token::Char('<'));
            emit(out, Token::Char('/'));
            emit(out, Token::EOF);
            self.go(Phase::EOF, 0);
            return;
        }
        let c = s[self.pos];
        if is_ascii_alpha_exec(c) {
            let mut t = Tag::new(TagKind::End);
            push_char(&mut t.name, ascii_lower(c));
            self.tag = t;
            self.go(Phase::TagName, 1);
        } else if c == '>' {
            self.go(Phase::Data, 1);
        } else {
            self.comment = String::new();
            self.go(Phase::BogusComment, 0);
        }
    }

    fn step_tag_name(&mut self, s: &Vec<char>, out: &mut VecDeque<Token>)
        requires
            old(self).pos <= s.len(),
        ensures
            stepped(
                old(self)@,
                final(self)@,
                old(out)@,
                final(out)@,
                machine::step_tag_name(old(self)@, s@),
            ),
    {
        if self.pos >= s.len() {
            self.tag_at_end(out);
            return;
        }
        let c = s[self.pos];
        if is_whitespace_exec(c) {
            self.go(Phase::BeforeAttributeName, 1);
        } else if c == '/' {
            self.go(Phase::SelfClosingStartTag, 1);
        } else if c == '>' {
            self.emit_tag(out);
        } else {
            push_char(&mut self.tag.name, name_char_exec(c));
            self.go(Phase::TagName, 1);
        }
    }

    fn step_before_attribute_name(&mut self, s: &Vec<char>, out: &mut VecDeque<Token>)
        requires
            old(self).pos <= s.len(),
        ensures
            stepped(
                old(self)@,
                final(self)@,
                old(out)@,
                final(out)@,
                machine::step_before_attribute_name(old(self)@, s@),
            ),
    {
        if self.pos >= s.len() {
            self.tag_at_end(out);
            return;
        }
        let c = s[self.pos];
        if is_whitespace_exec(c) {
            self.go(Phase::BeforeAttributeName, 1);
        } else if c == '/' {
            self.go(Phase::SelfClosingStartTag, 1);
        } else if c == '>' {
            self.emit_tag(out);
        } else if c == '=' {
            let mut a = Attribute::new();
            push_char(&mut a.name, '=');
            self.attribute = a;
            self.go(Phase::AttributeName, 1);
        } else {
            self.attribute = Attribute::new();
            self.go(Phase::AttributeName, 0);
        }
    }

    fn step_attribute_name(&mut self, s: &Vec<char>, out: &mut VecDeque<Token>)
        requires
            old(self).pos <= s.len(),
        ensures
            stepped(
                old(self)@,
                final(self)@,
                old(out)@,
                final(out)@,
                machine::step_attribute_name(old(self)@, s@),
            ),
    {
        if self.pos >= s.len() {
            self.commit_attribute();
            self.tag_at_end(out);
            return;
        }
        let c = s[self.pos];
        if is_whitespace_exec(c) {
            self.go(Phase::AfterAttributeName, 1);
        } else if c == '/' {
            self.commit_attribute();
            self.go(Phase::SelfClosingStartTag, 1);
        } else if c == '>' {
            self.commit_attribute();
            self.emit_tag(out);
        } else if c == '=' {
            self.go(Phase::BeforeAttributeValue, 1);
        } else {
            push_char(&mut self.attribute.name, name_char_exec(c));
            self.go(Phase::AttributeName, 1);
        }
    }

    fn step_after_attribute_name(&mut self, s: &Vec<char>, out: &mut VecDeque<Token>)
        requires
            old(self).pos <= s.len(),
        ensures
            stepped(
                old(self)@,
                final(self)@,
                old(out)@,
                final(out)@,
                machine::step_after_attribute_name(old(self)@, s@),
            ),
    {
        if self.pos >= s.len() {
            self.commit_attribute();
            self.tag_at_end(out);
            return;
        }
        let c = s[self.pos];
        if is_whitespace_exec(c) {
            self.go(Phase::AfterAttributeName, 1);
        } else if c == '/' {
            self.commit_attribute();
            self.go(Phase::SelfClosingStartTag, 1);
        } else if c == '=' {
            self.go(Phase::BeforeAttributeValue, 1);
        } else if c == '>' {
            self.commit_attribute();
            self.emit_tag(out);
        } else {
            self.commit_attribute();
            self.go(Phase::AttributeName, 0);
        }
    }

    fn step_before_attribute_value(&mut self, s: &Vec<char>, out: &mut VecDeque<Token>)
        requires
            old(self).pos <= s.len(),
        ensures
            stepped(
                old(self)@,
                final(self)@,
                old(out)@,
                final(out)@,
                machine::step_before_attribute_value(old(self)@, s@),
            ),
    {
        if self.pos >= s.len() {
            self.go(Phase::AttributeValueUnquoted, 0);
            return;
        }
        let c = s[self.pos];
        if is_whitespace_exec(c) {
            self.go(Phase::BeforeAttributeValue, 1);
        } else if c == '"' {
            self.go(Phase::AttributeValueDoubleQuoted, 1);
        } else if c == '\'' {
            self.go(Phase::AttributeValueSingleQuoted, 1);
        } else if c == '>' {
            self.commit_attribute();
            self.emit_tag(out);
        } else {
            self.go(Phase::AttributeValueUnquoted, 0);
        }
    }

    fn step_attribute_value_quoted(&mut self, s: &Vec<char>, out: &mut VecDeque<Token>, quote: char)
        requires
            old(self).pos <= s.len(),
        ensures
            stepped(
                old(self)@,
                final(self)@,
                old(out)@,
                final(out)@,
                machine::step_attribute_value_quoted(old(self)@, s@, quote),
            ),
    {
        if self.pos >= s.len() {
            self.commit_attribute();
            self.tag_at_end(out);
            return;
        }
        let c = s[self.pos];
        if c == quote {
            self.commit_attribute();
            self.go(Phase::AfterAttributeValueQuoted, 1);
        } else if c == '&' {
            let (cs, next) = resolve_reference(s, self.pos + 1, true);
            append_chars(&mut self.attribute.value, &cs);
            self.pos = next;
        } else {
            append_char(&mut self.attribute.value, text_char_exec(c));
            self.pos = self.pos + 1;
        }
    }

    fn step_attribute_value_unquoted(&mut self, s: &Vec<char>, out: &mut VecDeque<Token>)
        requires
            old(self).pos <= s.len(),
        ensures
            stepped(
                old(self)@,
                final(self)@,
                old(out)@,
                final(out)@,
                machine::step_attribute_value_unquoted(old(self)@, s@),
            ),
    {
        if self.pos >= s.len() {
            self.commit_attribute();
            self.tag_at_end(out);
            return;
        }
        let c = s[self.pos];
        if is_whitespace_exec(c) {
            self.commit_attribute();
            self.go(Phase::BeforeAttributeName, 1);
        } else if c == '&' {
            let (cs, next) = resolve_reference(s, self.pos + 1, true);
            append_chars(&mut self.attribute.value, &cs);
            self.pos = next;
        } else if c == '>' {
            self.commit_attribute();
            self.emit_tag(out);
        } else {
            append_char(&mut self.attribute.value, text_char_exec(c));
            self.go(Phase::AttributeValueUnquoted, 1);
        }
    }

    fn step_after_attribute_value_quoted(&mut self, s: &Vec<char>, out: &mut VecDeque<Token>)
        requires
            old(self).pos <= s.len(),
        ensures
            stepped(
                old(self)@,
                final(self)@,
                old(out)@,
                final(out)@,
                machine::step_after_attribute_value_quoted(old(self)@, s@),
            ),
    {
        if self.pos >= s.len() {
            self.tag_at_end(out);
            return;
        }
        let c = s[self.pos];
        if is_whitespace_exec(c) {
            self.go(Phase::BeforeAttributeName, 1);
        } else if c == '/' {
            self.go(Phase::SelfClosingStartTag, 1);
        } else if c == '>' {
            self.emit_tag(out);
        } else {
            self.go(Phase::BeforeAttributeName, 0);
        }
    }

    fn step_self_closing_start_tag(&mut self, s: &Vec<char>, out: &mut VecDeque<Token>)
        requires
            old(self).pos <= s.len(),
        ensures
            stepped(
                old(self)@,
                final(self)@,
                old(out)@,
                final(out)@,
                machine::step_self_closing_start_tag(old(self)@, s@),
            ),
    {
        if self.pos >= s.len() {
            self.tag_at_end(out);
            return;
        }
        let c = s[self.pos];
        if c == '>' {
            self.tag.self_closing = self.tag.kind == TagKind::Start;
            self.emit_tag(out);
        } else {
            self.go(Phase::BeforeAttributeName, 0);
        }
    }

    fn step_bogus_comment(&mut self, s: &Vec<char>, out: &mut VecDeque<Token>)
        requires
            old(self).pos <= s.len(),
        ensures
            stepped(
                old(self)@,
                final(self)@,
                old(out)@,
                final(out)@,
                machine::step_bogus_comment(old(self)@, s@),
            ),
    {
        if self.pos >= s.len() {
            self.comment_at_end(out);
            return;
        }
        let c = s[self.pos];
        if c == '>' {
            self.emit_comment(out);
        } else {
            append_char(&mut self.comment, text_char_exec(c));
            self.go(Phase::BogusComment, 1);
        }
    }

    fn step_markup_declaration_open(&mut self, s: &Vec<char>, out: &mut VecDeque<Token>)
        requires
            old(self).pos <= s.len(),
        ensures
            stepped(
                old(self)@,
                final(self)@,
                old(out)@,
                final(out)@,
                machine::step_markup_declaration_open(old(self)@, s@),
            ),
    {
        proof {
            reveal_strlit("--");
            reveal_strlit("DOCTYPE");
            reveal_strlit("[CDATA[");
        }
        assert("--"@ =~= seq!['-', '-']);
        assert("DOCTYPE"@ =~= seq!['D', 'O', 'C', 'T', 'Y', 'P', 'E']);
        assert("[CDATA["@ =~= seq!['[', 'C', 'D', 'A', 'T', 'A', '[']);
        if keyword_at_exec(s, self.pos, "--", false) {
            self.comment = String::new();
            self.go(Phase::CommentStart, 2);
        } else if keyword_at_exec(s, self.pos, "DOCTYPE", true) {
            self.go(Phase::Doctype, 7);
        } else if keyword_at_exec(s, self.pos, "[CDATA[", false) {
            self.go(Phase::CdataSection, 7);
        } else {
            self.comment = String::new();
            self.go(Phase::BogusComment, 0);
        }
    }

    fn step_comment_start(&mut self, s: &Vec<char>, out: &mut VecDeque<Token>)
        requires
            old(self).pos <= s.len(),
        ensures
            stepped(
                old(self)@,
                final(self)@,
                old(out)@,
                final(out)@,
                machine::step_comment_start(old(self)@, s@),
            ),
    {
        if self.pos >= s.len() {
            self.go(Phase::Comment, 0);
            return;
        }
        let c = s[self.pos];
        if c == '-' {
            self.go(Phase::CommentStartDash, 1);
        } else if c == '>' {
            self.emit_comment(out);
        } else {
            self.go(Phase::Comment, 0);
        }
    }

    fn step_comment_start_dash(&mut self, s: &Vec<char>, out: &mut VecDeque<Token>)
        requires
            old(self).pos <= s.len(),
        ensures
            stepped(
                old(self)@,
                final(self)@,
                old(out)@,
                final(out)@,
                machine::step_comment_start_dash(old(self)@, s@),
            ),
    {
        if self.pos >= s.len() {
            self.comment_at_end(out);
            return;
        }
        let c = s[self.pos];
        if c == '-' {
            self.go(Phase::CommentEnd, 1);
        } else if c == '>' {
            self.emit_comment(out);
        } else {
            append_char(&mut self.comment, '-');
            self.go(Phase::Comment, 0);
        }
    }

    fn step_comment(&mut self, s: &Vec<char>, out: &mut VecDeque<Token>)
        requires
            old(self).pos <= s.len(),
        ensures
            stepped(
                old(self)@,
                final(self)@,
                old(out)@,
                final(out)@,
                machine::step_comment(old(self)@, s@),
            ),
    {
        if self.pos >= s.len() {
            self.comment_at_end(out);
            return;
        }
        let c = s[self.pos];
        if c == '-' {
            self.go(Phase::CommentEndDash, 1);
        } else {
            append_char(&mut self.comment, text_char_exec(c));
            self.go(Phase::Comment, 1);
        }
    }

    fn step_comment_end_dash(&mut self, s: &Vec<char>, out: &mut VecDeque<Token>)
        requires
            old(self).pos <= s.len(),
        ensures
            stepped(
                old(self)@,
                final(self)@,
                old(out)@,
                final(out)@,
                machine::step_comment_end_dash(old(self)@, s@),
            ),
    {
        if self.pos >= s.len() {
            self.comment_at_end(out);
            return;
        }
        let c = s[self.pos];
        if c == '-' {
            self.go(Phase::CommentEnd, 1);
        } else {
            append_char(&mut self.comment, '-');
            self.go(Phase::Comment, 0);
        }
    }

    fn step_comment_end(&mut self, s: &Vec<char>, out: &mut VecDeque<Token>)
        requires
            old(self).pos <= s.len(),
        ensures
            stepped(
                old(self)@,
                final(self)@,
                old(out)@,
                final(out)@,
                machine::step_comment_end(old(self)@, s@),
            ),
    {
        if self.pos >= s.len() {
            self.comment_at_end(out);
            return;
        }
        let c = s[self.pos];
        if c == '>' {
            self.emit_comment(out);
        } else if c == '!' {
            self.go(Phase::CommentEndBang, 1);
        } else if c == '-' {
            append_char(&mut self.comment, '-');
            self.go(Phase::CommentEnd, 1);
        } else {
            let ghost before = self.comment@;
            push_char(&mut self.comment, '-');
            push_char(&mut self.comment, '-');
            assert(self.comment@ =~= before + seq!['-', '-']);
            self.go(Phase::Comment, 0);
        }
    }

    fn step_comment_end_bang(&mut self, s: &Vec<char>, out: &mut VecDeque<Token>)
        requires
            old(self).pos <= s.len(),
        ensures
            stepped(
                old(self)@,
                final(self)@,
                old(out)@,
                final(out)@,
                machine::step_comment_end_bang(old(self)@, s@),
            ),
    {
        if self.pos >= s.len() {
            self.comment_at_end(out);
            return;
        }
        let c = s[self.pos];
        if c == '>' {
            self.emit_comment(out);
            return;
        }
        let ghost before = self.comment@;
        push_char(&mut self.comment, '-');
        push_char(&mut self.comment, '-');
        push_char(&mut self.comment, '!');
        assert(self.comment@ =~= before + seq!['-', '-', '!']);
        if c == '-' {
            self.go(Phase::CommentEndDash, 1);
        } else {
            self.go(Phase::Comment, 0);
        }
    }

    fn step_doctype(&mut self, s: &Vec<char>, out: &mut VecDeque<Token>)
        requires
            old(self).pos <= s.len(),
        ensures
            stepped(
                old(self)@,
                final(self)@,
                old(out)@,
                final(out)@,
                machine::step_doctype(old(self)@, s@),
            ),
    {
        if self.pos >= s.len() {
            self.doctype = Doctype::new();
            self.doctype_at_end(out);
            return;
        }
        let c = s[self.pos];
        if is_whitespace_exec(c) {
            self.go(Phase::BeforeDoctypeName, 1);
        } else {
            self.go(Phase::BeforeDoctypeName, 0);
        }
    }

    fn step_before_doctype_name(&mut self, s: &Vec<char>, out: &mut VecDeque<Token>)
        requires
            old(self).pos <= s.len(),
        ensures
            stepped(
                old(self)@,
                final(self)@,
                old(out)@,
                final(out)@,
                machine::step_before_doctype_name(old(self)@, s@),
            ),
    {
        if self.pos < s.len() && is_whitespace_exec(s[self.pos]) {
            self.go(Phase::BeforeDoctypeName, 1);
            return;
        }
        self.doctype = Doctype::new();
        if self.pos >= s.len() {
            self.doctype_at_end(out);
            return;
        }
        let c = s[self.pos];
        if c == '>' {
            self.doctype.force_quirks = true;
            self.emit_doctype(out);
        } else {
            push_char(&mut self.doctype.name, name_char_exec(c));
            self.go(Phase::DoctypeName, 1);
        }
    }

    fn step_doctype_name(&mut self, s: &Vec<char>, out: &mut VecDeque<Token>)
        requires
            old(self).pos <= s.len(),
        ensures
            stepped(
                old(self)@,
                final(self)@,
                old(out)@,
                final(out)@,
                machine::step_doctype_name(old(self)@, s@),
            ),
    {
        if self.pos >= s.len() {
            self.doctype_at_end(out);
            return;
        }
        let c = s[self.pos];
        if is_whitespace_exec(c) {
            self.go(Phase::AfterDoctypeName, 1);
        } else if c == '>' {
            self.emit_doctype(out);
        } else {
            push_char(&mut self.doctype.name, name_char_exec(c));
            self.go(Phase::DoctypeName, 1);
        }
    }

    fn step_after_doctype_name(&mut self, s: &Vec<char>, out: &mut VecDeque<Token>)
        requires
            old(self).pos <= s.len(),
        ensures
            stepped(
                old(self)@,
                final(self)@,
                old(out)@,
                final(out)@,
                machine::step_after_doctype_name(old(self)@, s@),
            ),
    {
        if self.pos >= s.len() {
            self.doctype_at_end(out);
            return;
        }
        proof {
            reveal_strlit("PUBLIC");
            reveal_strlit("SYSTEM");
        }
        assert("PUBLIC"@ =~= seq!['P', 'U', 'B', 'L', 'I', 'C']);
        assert("SYSTEM"@ =~= seq!['S', 'Y', 'S', 'T', 'E', 'M']);
        let c = s[self.pos];
        if is_whitespace_exec(c) {
            self.go(Phase::AfterDoctypeName, 1);
        } else if c == '>' {
            self.emit_doctype(out);
        } else if keyword_at_exec(s, self.pos, "PUBLIC", true) {
            self.go(Phase::AfterDoctypePublicKeyword, 6);
        } else if keyword_at_exec(s, self.pos, "SYSTEM", true) {
            self.go(Phase::AfterDoctypeSystemKeyword, 6);
        } else {
            self.doctype.force_quirks = true;
            self.go(Phase::BogusDoctype, 0);
        }
    }

    fn step_doctype_gap(&mut self, s: &Vec<char>, out: &mut VecDeque<Token>,
        on_space: Phase,
        public: bool,
        complete: bool,
    )
        requires
            old(self).pos <= s.len(),
        ensures
            stepped(
                old(self)@,
                final(self)@,
                old(out)@,
                final(out)@,
                machine::step_doctype_gap(old(self)@, s@, on_space, public, complete),
            ),
    {
        if self.pos >= s.len() {
            self.doctype_at_end(out);
            return;
        }
        let c = s[self.pos];
        if is_whitespace_exec(c) {
            self.go(on_space, 1);
        } else if c == '"' || c == '\'' {
            let double = c == '"';
            if public {
                self.doctype.public_identifier = Some(String::new());
                if double {
                    self.go(Phase::DoctypePublicIdentifierDoubleQuoted, 1);
                } else {
                    self.go(Phase::DoctypePublicIdentifierSingleQuoted, 1);
                }
            } else {
                self.doctype.system_identifier = Some(String::new());
                if double {
                    self.go(Phase::DoctypeSystemIdentifierDoubleQuoted, 1);
                } else {
                    self.go(Phase::DoctypeSystemIdentifierSingleQuoted, 1);
                }
            }
        } else if c == '>' {
            if !complete {
                self.doctype.force_quirks = true;
            }
            self.emit_doctype(out);
        } else {
            self.doctype.force_quirks = true;
            self.go(Phase::BogusDoctype, 0);
        }
    }

    fn step_doctype_identifier(&mut self, s: &Vec<char>, out: &mut VecDeque<Token>,
        quote: char,
        public: bool,
        after: Phase,
    )
        requires
            old(self).pos <= s.len(),
        ensures
            stepped(
                old(self)@,
                final(self)@,
                old(out)@,
                final(out)@,
                machine::step_doctype_identifier(old(self)@, s@, quote, public, after),
            ),
    {
        if self.pos >= s.len() {
            self.doctype_at_end(out);
            return;
        }
        let c = s[self.pos];
        if c == quote {
            self.go(after, 1);
        } else if c == '>' {
            self.doctype.force_quirks = true;
            self.emit_doctype(out);
        } else if public {
            let mut id = match self.doctype.public_identifier.take() {
                Some(id) => id,
                None => String::new(),
            };
            push_char(&mut id, text_char_exec(c));
            self.doctype.public_identifier = Some(id);
            self.pos = self.pos + 1;
        } else {
            let mut id = match self.doctype.system_identifier.take() {
                Some(id) => id,
                None => String::new(),
            };
            push_char(&mut id, text_char_exec(c));
            self.doctype.system_identifier = Some(id);
            self.pos = self.pos + 1;
        }
    }

    fn step_after_doctype_system_identifier(&mut self, s: &Vec<char>, out: &mut VecDeque<Token>)
        requires
            old(self).pos <= s.len(),
        ensures
            stepped(
                old(self)@,
                final(self)@,
                old(out)@,
                final(out)@,
                machine::step_after_doctype_system_identifier(old(self)@, s@),
            ),
    {
        if self.pos >= s.len() {
            self.doctype_at_end(out);
            return;
        }
        let c = s[self.pos];
        if is_whitespace_exec(c) {
            self.go(Phase::AfterDoctypeSystemIdentifier, 1);
        } else if c == '>' {
            self.emit_doctype(out);
        } else {
            self.go(Phase::BogusDoctype, 0);
        }
    }

    fn step_bogus_doctype(&mut self, s: &Vec<char>, out: &mut VecDeque<Token>)
        requires
            old(self).pos <= s.len(),
        ensures
            stepped(
                old(self)@,
                final(self)@,
                old(out)@,
                final(out)@,
                machine::step_bogus_doctype(old(self)@, s@),
            ),
    {
        if self.pos >= s.len() {
            let d = self.take_doctype();
            emit(out, Token::Doctype(d));
            emit(out, Token::EOF);
            self.go(Phase::EOF, 0);
            return;
        }
        let c = s[self.pos];
        if c == '>' {
            self.emit_doctype(out);
        } else {
            self.go(Phase::BogusDoctype, 1);
        }
    }

    fn step_cdata_section(&mut self, s: &Vec<char>, out: &mut VecDeque<Token>)
        requires
            old(self).pos <= s.len(),
        ensures
            stepped(
                old(self)@,
                final(self)@,
                old(out)@,
                final(out)@,
                machine::step_cdata_section(old(self)@, s@),
            ),
    {
        if self.pos >= s.len() {
            self.end_of_input(out);
            return;
        }
        proof {
            reveal_strlit("]]>");
        }
        assert("]]>"@ =~= seq![']', ']', '>']);
        let c = s[self.pos];
        if keyword_at_exec(s, self.pos, "]]>", false) {
            self.go(Phase::Data, 3);
        } else {
            emit(out, Token::Char(text_char_exec(c)));
            self.go(Phase::CdataSection, 1);
        }
    }

    /// One step of the tokenizer: consumes what the phase reads, appends
    /// the tokens it completes to `out`, and moves to the next state.
    /// The terminal state has no step.
    pub fn step(&mut self, s: &Vec<char>, out: &mut VecDeque<Token>)
        requires
            old(self).pos <= s.len(),
            old(self).phase != Phase::EOF,
        ensures
            stepped(
                old(self)@,
                final(self)@,
                old(out)@,
                final(out)@,
                machine::step(old(self)@, s@),
            ),
            final(self).pos <= s.len(),
            measure(final(self)@, s@) < measure(old(self)@, s@),
    {
        proof {
            lemma_step_progress(self@, s@);
        }
        match self.phase {
            Phase::Data => self.step_data(s, out),
            Phase::TagOpen => self.step_tag_open(s, out),
            Phase::EndTagOpen => self.step_end_tag_open(s, out),
            Phase::TagName => self.step_tag_name(s, out),
            Phase::BeforeAttributeName => self.step_before_attribute_name(s, out),
            Phase::AttributeName => self.step_attribute_name(s, out),
            Phase::AfterAttributeName => self.step_after_attribute_name(s, out),
            Phase::BeforeAttributeValue => self.step_before_attribute_value(s, out),
            Phase::AttributeValueDoubleQuoted => self.step_attribute_value_quoted(s, out, '"'),
            Phase::AttributeValueSingleQuoted => self.step_attribute_value_quoted(s, out, '\''),
            Phase::AttributeValueUnquoted => self.step_attribute_value_unquoted(s, out),
            Phase::AfterAttributeValueQuoted => self.step_after_attribute_value_quoted(s, out),
            Phase::SelfClosingStartTag => self.step_self_closing_start_tag(s, out),
            Phase::BogusComment => self.step_bogus_comment(s, out),
            Phase::MarkupDeclarationOpen => self.step_markup_declaration_open(s, out),
            Phase::CommentStart => self.step_comment_start(s, out),
            Phase::CommentStartDash => self.step_comment_start_dash(s, out),
            Phase::Comment => self.step_comment(s, out),
            Phase::CommentEndDash => self.step_comment_end_dash(s, out),
            Phase::CommentEnd => self.step_comment_end(s, out),
            Phase::CommentEndBang => self.step_comment_end_bang(s, out),
            Phase::Doctype => self.step_doctype(s, out),
            Phase::BeforeDoctypeName => self.step_before_doctype_name(s, out),
            Phase::DoctypeName => self.step_doctype_name(s, out),
            Phase::AfterDoctypeName => self.step_after_doctype_name(s, out),
            Phase::AfterDoctypePublicKeyword => self.step_doctype_gap(
                s,
                out,
                Phase::BeforeDoctypePublicIdentifier,
                true,
                false,
            ),
            Phase::BeforeDoctypePublicIdentifier => self.step_doctype_gap(
                s,
                out,
                Phase::BeforeDoctypePublicIdentifier,
                true,
                false,
            ),
            Phase::DoctypePublicIdentifierDoubleQuoted => self.step_doctype_identifier(
                s,
                out,
                '"',
                true,
                Phase::AfterDoctypePublicIdentifier,
            ),
            Phase::DoctypePublicIdentifierSingleQuoted => self.step_doctype_identifier(
                s,
                out,
                '\'',
                true,
                Phase::AfterDoctypePublicIdentifier,
            ),
            Phase::AfterDoctypePublicIdentifier => self.step_doctype_gap(
                s,
                out,
                Phase::BetweenDoctypePublicAndSystemIdentifiers,
                false,
                true,
            ),
            Phase::BetweenDoctypePublicAndSystemIdentifiers => self.step_doctype_gap(
                s,
                out,
                Phase::BetweenDoctypePublicAndSystemIdentifiers,
                false,
                true,
            ),
            Phase::AfterDoctypeSystemKeyword => self.step_doctype_gap(
                s,
                out,
                Phase::BeforeDoctypeSystemIdentifier,
                false,
                false,
            ),
            Phase::BeforeDoctypeSystemIdentifier => self.step_doctype_gap(
                s,
                out,
                Phase::BeforeDoctypeSystemIdentifier,
                false,
                false,
            ),
            Phase::DoctypeSystemIdentifierDoubleQuoted => self.step_doctype_identifier(
                s,
                out,
                '"',
                false,
                Phase::AfterDoctypeSystemIdentifier,
            ),
            Phase::DoctypeSystemIdentifierSingleQuoted => self.step_doctype_identifier(
                s,
                out,
                '\'',
                false,
                Phase::AfterDoctypeSystemIdentifier,
            ),
            Phase::AfterDoctypeSystemIdentifier => self.step_after_doctype_system_identifier(
                s,
                out,
            ),
            Phase::BogusDoctype => self.step_bogus_doctype(s, out),
            Phase::CdataSection => self.step_cdata_section(s, out),
            Phase::EOF => {},
        }
    }

    /// Whether the step from this state reports a parse error.
    pub fn parse_error_at(&self, s: &Vec<char>) -> (r: bool)
        requires
            self.pos <= s.len(),
        ensures
            r == parse_error(self@, s@),
    {
        if self.phase == Phase::MarkupDeclarationOpen {
            proof {
                reveal_strlit("--");
                reveal_strlit("DOCTYPE");
                reveal_strlit("[CDATA[");
            }
            assert("--"@ =~= seq!['-', '-']);
            assert("DOCTYPE"@ =~= seq!['D', 'O', 'C', 'T', 'Y', 'P', 'E']);
            assert("[CDATA["@ =~= seq!['[', 'C', 'D', 'A', 'T', 'A', '[']);
            return !keyword_at_exec(s, self.pos, "--", false) && !keyword_at_exec(
                s,
                self.pos,
                "DOCTYPE",
                true,
            ) && !keyword_at_exec(s, self.pos, "[CDATA[", false);
        }
        if self.pos >= s.len() {
            return match self.phase {
                Phase::Data
                | Phase::BeforeAttributeValue
                | Phase::BogusComment
                | Phase::CommentStart
                | Phase::BogusDoctype
                | Phase::EOF => false,
                _ => true,
            };
        }
        let c = s[self.pos];
        match self.phase {
            Phase::Data => c == '\0' || (c == '&' && reference_error(s, self.pos + 1, false)),
            Phase::TagOpen => !(c == '!' || c == '/' || is_ascii_alpha_exec(c)),
            Phase::EndTagOpen => !is_ascii_alpha_exec(c),
            Phase::TagName | Phase::DoctypeName | Phase::Comment | Phase::BogusComment
            | Phase::BogusDoctype => c == '\0',
            Phase::BeforeAttributeName => c == '=',
            Phase::AttributeName => c == '\0' || c == '"' || c == '\'' || c == '<',
            Phase::BeforeAttributeValue
            | Phase::CommentStart
            | Phase::CommentStartDash
            | Phase::CommentEndBang => c == '>',
            Phase::AttributeValueDoubleQuoted | Phase::AttributeValueSingleQuoted => c == '\0'
                || (c == '&' && reference_error(s, self.pos + 1, true)),
            Phase::AttributeValueUnquoted => c == '\0' || c == '"' || c == '\'' || c == '<' || c
                == '=' || c == '`' || (c == '&' && reference_error(s, self.pos + 1, true)),
            Phase::AfterAttributeValueQuoted => !(is_whitespace_exec(c) || c == '/' || c == '>'),
            Phase::SelfClosingStartTag => c != '>' || self.tag.kind == TagKind::End,
            Phase::Doctype
            | Phase::AfterDoctypePublicIdentifier
            | Phase::AfterDoctypeSystemIdentifier => !(is_whitespace_exec(c) || c == '>'),
            Phase::BeforeDoctypeName => c == '>' || c == '\0',
            Phase::AfterDoctypeName => {
                proof {
                    reveal_strlit("PUBLIC");
                    reveal_strlit("SYSTEM");
                }
                assert("PUBLIC"@ =~= seq!['P', 'U', 'B', 'L', 'I', 'C']);
                assert("SYSTEM"@ =~= seq!['S', 'Y', 'S', 'T', 'E', 'M']);
                !(is_whitespace_exec(c) || c == '>' || keyword_at_exec(s, self.pos, "PUBLIC", true)
                    || keyword_at_exec(s, self.pos, "SYSTEM", true))
            },
            Phase::AfterDoctypePublicKeyword | Phase::AfterDoctypeSystemKeyword => !is_whitespace_exec(c),
            Phase::BeforeDoctypePublicIdentifier | Phase::BeforeDoctypeSystemIdentifier => !(
            is_whitespace_exec(c) || c == '"' || c == '\''),
            Phase::BetweenDoctypePublicAndSystemIdentifiers => !(is_whitespace_exec(c) || c == '>'
                || c == '"' || c == '\''),
            Phase::DoctypePublicIdentifierDoubleQuoted
            | Phase::DoctypePublicIdentifierSingleQuoted
            | Phase::DoctypeSystemIdentifierDoubleQuoted
            | Phase::DoctypeSystemIdentifierSingleQuoted => c == '\0' || c == '>',
            _ => false,
        }
    }
}

} // verus!
