//! The tokenizer's state machine as a mathematical function: one step from
//! a state and the input to the next state and the tokens it completes.
use vstd::prelude::*;
use crate::charref::{char_ref, char_ref_error, lemma_char_ref_bounds};
use crate::text::lower;
use crate::token::{AttributeView, DoctypeView, TagKind, TagView, TokenView};

verus! {

/// The phases of the tokenizer.
#[derive(Clone, Copy, Debug, PartialEq, Eq, Structural)]
pub enum Phase {
    Data,
    TagOpen,
    EndTagOpen,
    TagName,
    BeforeAttributeName,
    AttributeName,
    AfterAttributeName,
    BeforeAttributeValue,
    AttributeValueDoubleQuoted,
    AttributeValueSingleQuoted,
    AttributeValueUnquoted,
    AfterAttributeValueQuoted,
    SelfClosingStartTag,
    BogusComment,
    MarkupDeclarationOpen,
    CommentStart,
    CommentStartDash,
    Comment,
    CommentEndDash,
    CommentEnd,
    CommentEndBang,
    Doctype,
    BeforeDoctypeName,
    DoctypeName,
    AfterDoctypeName,
    AfterDoctypePublicKeyword,
    BeforeDoctypePublicIdentifier,
    DoctypePublicIdentifierDoubleQuoted,
    DoctypePublicIdentifierSingleQuoted,
    AfterDoctypePublicIdentifier,
    BetweenDoctypePublicAndSystemIdentifiers,
    AfterDoctypeSystemKeyword,
    BeforeDoctypeSystemIdentifier,
    DoctypeSystemIdentifierDoubleQuoted,
    DoctypeSystemIdentifierSingleQuoted,
    AfterDoctypeSystemIdentifier,
    BogusDoctype,
    CdataSection,
    /// Terminal: the end-of-input token has been emitted.
    EOF,
}

/// A tokenizer state: the phase, the position of the next input
/// character, and the tokens under construction.
pub struct StateView {
    pub phase: Phase,
    pub pos: int,
    pub tag: TagView,
    pub attribute: AttributeView,
    pub doctype: DoctypeView,
    pub comment: Seq<char>,
}

/// A step's result: the next state and the tokens completed on the way.
pub type StepResult = (StateView, Seq<TokenView>);

pub open spec fn is_whitespace(c: char) -> bool {
    c == '\t' || c == '\n' || c == '\x0C' || c == ' '
}

pub open spec fn is_ascii_alpha(c: char) -> bool {
    ('a' <= c && c <= 'z') || ('A' <= c && c <= 'Z')
}

/// A character of text content or of a value: NUL becomes U+FFFD.
pub open spec fn text_char(c: char) -> char {
    if c == '\0' {
        '\u{FFFD}'
    } else {
        c
    }
}

/// A character of a tag, attribute or DOCTYPE name: NUL becomes U+FFFD,
/// ASCII upper case becomes lower case.
pub open spec fn name_char(c: char) -> char {
    if c == '\0' {
        '\u{FFFD}'
    } else {
        lower(c)
    }
}

/// Whether the keyword `kw` stands in `s` at `p`; with `fold`, ASCII case
/// is ignored.
pub open spec fn keyword_at(s: Seq<char>, p: int, kw: Seq<char>, fold: bool) -> bool {
    &&& 0 <= p
    &&& p + kw.len() <= s.len()
    &&& forall|k: int|
        0 <= k < kw.len() ==> if fold {
            lower(#[trigger] s[p + k]) == lower(kw[k])
        } else {
            s[p + k] == kw[k]
        }
}

pub open spec fn char_token(c: char) -> TokenView {
    TokenView::Char(c)
}

/// The characters as character tokens.
pub open spec fn char_tokens(cs: Seq<char>) -> Seq<TokenView> {
    cs.map_values(|c: char| char_token(c))
}

impl StateView {
    /// The state a tokenizer starts in.
    pub open spec fn initial() -> StateView {
        StateView {
            phase: Phase::Data,
            pos: 0,
            tag: TagView::empty(TagKind::Start),
            attribute: AttributeView::empty(),
            doctype: DoctypeView::empty(),
            comment: Seq::empty(),
        }
    }

    /// The next input character, if any is left.
    pub open spec fn next_char(self, s: Seq<char>) -> Option<char> {
        if 0 <= self.pos < s.len() {
            Some(s[self.pos])
        } else {
            None
        }
    }

    /// Moves to `phase`, consuming `n` characters.
    pub open spec fn go(self, phase: Phase, n: int) -> StateView {
        StateView { phase, pos: self.pos + n, ..self }
    }

    /// The current attribute added to the tag under the first-wins rule,
    /// and a fresh attribute started.
    pub open spec fn commit_attribute(self) -> StateView {
        StateView {
            tag: self.tag.add_attribute(self.attribute),
            attribute: AttributeView::empty(),
            ..self
        }
    }

    pub open spec fn with_tag_name(self, c: char) -> StateView {
        StateView { tag: TagView { name: self.tag.name.push(c), ..self.tag }, ..self }
    }

    pub open spec fn with_attribute_name(self, c: char) -> StateView {
        StateView {
            attribute: AttributeView { name: self.attribute.name.push(c), ..self.attribute },
            ..self
        }
    }

    pub open spec fn with_attribute_value(self, cs: Seq<char>) -> StateView {
        StateView {
            attribute: AttributeView { value: self.attribute.value + cs, ..self.attribute },
            ..self
        }
    }

    pub open spec fn with_comment(self, cs: Seq<char>) -> StateView {
        StateView { comment: self.comment + cs, ..self }
    }

    pub open spec fn with_doctype_name(self, c: char) -> StateView {
        StateView { doctype: DoctypeView { name: self.doctype.name.push(c), ..self.doctype }, ..self }
    }

    pub open spec fn with_quirks(self) -> StateView {
        StateView { doctype: DoctypeView { force_quirks: true, ..self.doctype }, ..self }
    }

    pub open spec fn with_public_id(self, id: Seq<char>) -> StateView {
        StateView {
            doctype: DoctypeView { public_identifier: Some(id), ..self.doctype },
            ..self
        }
    }

    pub open spec fn with_system_id(self, id: Seq<char>) -> StateView {
        StateView {
            doctype: DoctypeView { system_identifier: Some(id), ..self.doctype },
            ..self
        }
    }

    /// Emits the tag and returns to text, consuming one character.
    pub open spec fn emit_tag(self) -> StepResult {
        (
            StateView { tag: TagView::empty(TagKind::Start), ..self.go(Phase::Data, 1) },
            seq![TokenView::Tag(self.tag)],
        )
    }

    /// Emits the tag and then the end of input.
    pub open spec fn tag_at_end(self) -> StepResult {
        (
            StateView { tag: TagView::empty(TagKind::Start), ..self.go(Phase::EOF, 0) },
            seq![TokenView::Tag(self.tag), TokenView::EOF],
        )
    }

    pub open spec fn emit_comment(self) -> StepResult {
        (
            StateView { comment: Seq::empty(), ..self.go(Phase::Data, 1) },
            seq![TokenView::Comment(self.comment)],
        )
    }

    pub open spec fn comment_at_end(self) -> StepResult {
        (
            StateView { comment: Seq::empty(), ..self.go(Phase::EOF, 0) },
            seq![TokenView::Comment(self.comment), TokenView::EOF],
        )
    }

    pub open spec fn emit_doctype(self) -> StepResult {
        (
            StateView { doctype: DoctypeView::empty(), ..self.go(Phase::Data, 1) },
            seq![TokenView::Doctype(self.doctype)],
        )
    }

    /// Emits the DOCTYPE with quirks forced, then the end of input.
    pub open spec fn doctype_at_end(self) -> StepResult {
        (
            StateView { doctype: DoctypeView::empty(), ..self.go(Phase::EOF, 0) },
            seq![TokenView::Doctype(self.with_quirks().doctype), TokenView::EOF],
        )
    }

    pub open spec fn end_of_input(self) -> StepResult {
        (self.go(Phase::EOF, 0), seq![TokenView::EOF])
    }
}

pub open spec fn quiet(st: StateView) -> StepResult {
    (st, Seq::empty())
}

pub open spec fn step_data(st: StateView, s: Seq<char>) -> StepResult {
    match st.next_char(s) {
        None => st.end_of_input(),
        Some(c) => if c == '&' {
            let r = char_ref(s, st.pos + 1, false);
            (StateView { pos: r.1, ..st }, char_tokens(r.0))
        } else if c == '<' {
            quiet(st.go(Phase::TagOpen, 1))
        } else {
            (st.go(Phase::Data, 1), seq![TokenView::Char(text_char(c))])
        },
    }
}

pub open spec fn step_tag_open(st: StateView, s: Seq<char>) -> StepResult {
    match st.next_char(s) {
        None => (st.go(Phase::EOF, 0), seq![TokenView::Char('<'), TokenView::EOF]),
        Some(c) => if c == '!' {
            quiet(st.go(Phase::MarkupDeclarationOpen, 1))
        } else if c == '/' {
            quiet(st.go(Phase::EndTagOpen, 1))
        } else if is_ascii_alpha(c) {
            quiet(
                StateView {
                    tag: TagView { name: seq![lower(c)], ..TagView::empty(TagKind::Start) },
                    ..st.go(Phase::TagName, 1)
                },
            )
        } else if c == '?' {
            quiet(StateView { comment: Seq::empty(), ..st.go(Phase::BogusComment, 0) })
        } else {
            (st.go(Phase::Data, 0), seq![TokenView::Char('<')])
        },
    }
}

pub open spec fn step_end_tag_open(st: StateView, s: Seq<char>) -> StepResult {
    match st.next_char(s) {
        None => (
            st.go(Phase::EOF, 0),
            seq![TokenView::Char('<'), TokenView::Char('/'), TokenView::EOF],
        ),
        Some(c) => if is_ascii_alpha(c) {
            quiet(
                StateView {
                    tag: TagView { name: seq![lower(c)], ..TagView::empty(TagKind::End) },
                    ..st.go(Phase::TagName, 1)
                },
            )
        } else if c == '>' {
            quiet(st.go(Phase::Data, 1))
        } else {
            quiet(StateView { comment: Seq::empty(), ..st.go(Phase::BogusComment, 0) })
        },
    }
}

pub open spec fn step_tag_name(st: StateView, s: Seq<char>) -> StepResult {
    match st.next_char(s) {
        None => st.tag_at_end(),
        Some(c) => if is_whitespace(c) {
            quiet(st.go(Phase::BeforeAttributeName, 1))
        } else if c == '/' {
            quiet(st.go(Phase::SelfClosingStartTag, 1))
        } else if c == '>' {
            st.emit_tag()
        } else {
            quiet(st.with_tag_name(name_char(c)).go(Phase::TagName, 1))
        },
    }
}

pub open spec fn step_before_attribute_name(st: StateView, s: Seq<char>) -> StepResult {
    match st.next_char(s) {
        None => st.tag_at_end(),
        Some(c) => if is_whitespace(c) {
            quiet(st.go(Phase::BeforeAttributeName, 1))
        } else if c == '/' {
            quiet(st.go(Phase::SelfClosingStartTag, 1))
        } else if c == '>' {
            st.emit_tag()
        } else if c == '=' {
            quiet(
                StateView {
                    attribute: AttributeView { name: seq!['='], value: Seq::empty() },
                    ..st.go(Phase::AttributeName, 1)
                },
            )
        } else {
            quiet(StateView { attribute: AttributeView::empty(), ..st.go(Phase::AttributeName, 0) })
        },
    }
}

pub open spec fn step_attribute_name(st: StateView, s: Seq<char>) -> StepResult {
    match st.next_char(s) {
        None => st.commit_attribute().tag_at_end(),
        Some(c) => if is_whitespace(c) {
            quiet(st.go(Phase::AfterAttributeName, 1))
        } else if c == '/' {
            quiet(st.commit_attribute().go(Phase::SelfClosingStartTag, 1))
        } else if c == '>' {
            st.commit_attribute().emit_tag()
        } else if c == '=' {
            quiet(st.go(Phase::BeforeAttributeValue, 1))
        } else {
            quiet(st.with_attribute_name(name_char(c)).go(Phase::AttributeName, 1))
        },
    }
}

pub open spec fn step_after_attribute_name(st: StateView, s: Seq<char>) -> StepResult {
    match st.next_char(s) {
        None => st.commit_attribute().tag_at_end(),
        Some(c) => if is_whitespace(c) {
            quiet(st.go(Phase::AfterAttributeName, 1))
        } else if c == '/' {
            quiet(st.commit_attribute().go(Phase::SelfClosingStartTag, 1))
        } else if c == '=' {
            quiet(st.go(Phase::BeforeAttributeValue, 1))
        } else if c == '>' {
            st.commit_attribute().emit_tag()
        } else {
            quiet(st.commit_attribute().go(Phase::AttributeName, 0))
        },
    }
}

pub open spec fn step_before_attribute_value(st: StateView, s: Seq<char>) -> StepResult {
    match st.next_char(s) {
        Some(c) => if is_whitespace(c) {
            quiet(st.go(Phase::BeforeAttributeValue, 1))
        } else if c == '"' {
            quiet(st.go(Phase::AttributeValueDoubleQuoted, 1))
        } else if c == '\'' {
            quiet(st.go(Phase::AttributeValueSingleQuoted, 1))
        } else if c == '>' {
            st.commit_attribute().emit_tag()
        } else {
            quiet(st.go(Phase::AttributeValueUnquoted, 0))
        },
        None => quiet(st.go(Phase::AttributeValueUnquoted, 0)),
    }
}

/// A quoted attribute value, closed by `quote`.
pub open spec fn step_attribute_value_quoted(st: StateView, s: Seq<char>, quote: char) -> StepResult {
    match st.next_char(s) {
        None => st.commit_attribute().tag_at_end(),
        Some(c) => if c == quote {
            quiet(st.commit_attribute().go(Phase::AfterAttributeValueQuoted, 1))
        } else if c == '&' {
            let r = char_ref(s, st.pos + 1, true);
            quiet(StateView { pos: r.1, ..st.with_attribute_value(r.0) })
        } else {
            quiet(st.with_attribute_value(seq![text_char(c)]).go(st.phase, 1))
        },
    }
}

pub open spec fn step_attribute_value_unquoted(st: StateView, s: Seq<char>) -> StepResult {
    match st.next_char(s) {
        None => st.commit_attribute().tag_at_end(),
        Some(c) => if is_whitespace(c) {
            quiet(st.commit_attribute().go(Phase::BeforeAttributeName, 1))
        } else if c == '&' {
            let r = char_ref(s, st.pos + 1, true);
            quiet(StateView { pos: r.1, ..st.with_attribute_value(r.0) })
        } else if c == '>' {
            st.commit_attribute().emit_tag()
        } else {
            quiet(st.with_attribute_value(seq![text_char(c)]).go(Phase::AttributeValueUnquoted, 1))
        },
    }
}

pub open spec fn step_after_attribute_value_quoted(st: StateView, s: Seq<char>) -> StepResult {
    match st.next_char(s) {
        None => st.tag_at_end(),
        Some(c) => if is_whitespace(c) {
            quiet(st.go(Phase::BeforeAttributeName, 1))
        } else if c == '/' {
            quiet(st.go(Phase::SelfClosingStartTag, 1))
        } else if c == '>' {
            st.emit_tag()
        } else {
            quiet(st.go(Phase::BeforeAttributeName, 0))
        },
    }
}

pub open spec fn step_self_closing_start_tag(st: StateView, s: Seq<char>) -> StepResult {
    match st.next_char(s) {
        None => st.tag_at_end(),
        Some(c) => if c == '>' {
            StateView {
                tag: TagView { self_closing: st.tag.kind == TagKind::Start, ..st.tag },
                ..st
            }.emit_tag()
        } else {
            quiet(st.go(Phase::BeforeAttributeName, 0))
        },
    }
}

pub open spec fn step_bogus_comment(st: StateView, s: Seq<char>) -> StepResult {
    match st.next_char(s) {
        None => st.comment_at_end(),
        Some(c) => if c == '>' {
            st.emit_comment()
        } else {
            quiet(st.with_comment(seq![text_char(c)]).go(Phase::BogusComment, 1))
        },
    }
}

pub open spec fn step_markup_declaration_open(st: StateView, s: Seq<char>) -> StepResult {
    if keyword_at(s, st.pos, seq!['-', '-'], false) {
        quiet(StateView { comment: Seq::empty(), ..st.go(Phase::CommentStart, 2) })
    } else if keyword_at(s, st.pos, seq!['D', 'O', 'C', 'T', 'Y', 'P', 'E'], true) {
        quiet(st.go(Phase::Doctype, 7))
    } else if keyword_at(s, st.pos, seq!['[', 'C', 'D', 'A', 'T', 'A', '['], false) {
        quiet(st.go(Phase::CdataSection, 7))
    } else {
        quiet(StateView { comment: Seq::empty(), ..st.go(Phase::BogusComment, 0) })
    }
}

pub open spec fn step_comment_start(st: StateView, s: Seq<char>) -> StepResult {
    match st.next_char(s) {
        Some(c) => if c == '-' {
            quiet(st.go(Phase::CommentStartDash, 1))
        } else if c == '>' {
            st.emit_comment()
        } else {
            quiet(st.go(Phase::Comment, 0))
        },
        None => quiet(st.go(Phase::Comment, 0)),
    }
}

pub open spec fn step_comment_start_dash(st: StateView, s: Seq<char>) -> StepResult {
    match st.next_char(s) {
        None => st.comment_at_end(),
        Some(c) => if c == '-' {
            quiet(st.go(Phase::CommentEnd, 1))
        } else if c == '>' {
            st.emit_comment()
        } else {
            quiet(st.with_comment(seq!['-']).go(Phase::Comment, 0))
        },
    }
}

pub open spec fn step_comment(st: StateView, s: Seq<char>) -> StepResult {
    match st.next_char(s) {
        None => st.comment_at_end(),
        Some(c) => if c == '-' {
            quiet(st.go(Phase::CommentEndDash, 1))
        } else {
            quiet(st.with_comment(seq![text_char(c)]).go(Phase::Comment, 1))
        },
    }
}

pub open spec fn step_comment_end_dash(st: StateView, s: Seq<char>) -> StepResult {
    match st.next_char(s) {
        None => st.comment_at_end(),
        Some(c) => if c == '-' {
            quiet(st.go(Phase::CommentEnd, 1))
        } else {
            quiet(st.with_comment(seq!['-']).go(Phase::Comment, 0))
        },
    }
}

pub open spec fn step_comment_end(st: StateView, s: Seq<char>) -> StepResult {
    match st.next_char(s) {
        None => st.comment_at_end(),
        Some(c) => if c == '>' {
            st.emit_comment()
        } else if c == '!' {
            quiet(st.go(Phase::CommentEndBang, 1))
        } else if c == '-' {
            quiet(st.with_comment(seq!['-']).go(Phase::CommentEnd, 1))
        } else {
            quiet(st.with_comment(seq!['-', '-']).go(Phase::Comment, 0))
        },
    }
}

pub open spec fn step_comment_end_bang(st: StateView, s: Seq<char>) -> StepResult {
    match st.next_char(s) {
        None => st.comment_at_end(),
        Some(c) => if c == '-' {
            quiet(st.with_comment(seq!['-', '-', '!']).go(Phase::CommentEndDash, 1))
        } else if c == '>' {
            st.emit_comment()
        } else {
            quiet(st.with_comment(seq!['-', '-', '!']).go(Phase::Comment, 0))
        },
    }
}

pub open spec fn step_doctype(st: StateView, s: Seq<char>) -> StepResult {
    match st.next_char(s) {
        None => StateView { doctype: DoctypeView::empty(), ..st }.doctype_at_end(),
        Some(c) => if is_whitespace(c) {
            quiet(st.go(Phase::BeforeDoctypeName, 1))
        } else {
            quiet(st.go(Phase::BeforeDoctypeName, 0))
        },
    }
}

pub open spec fn step_before_doctype_name(st: StateView, s: Seq<char>) -> StepResult {
    let fresh = StateView { doctype: DoctypeView::empty(), ..st };
    match st.next_char(s) {
        None => fresh.doctype_at_end(),
        Some(c) => if is_whitespace(c) {
            quiet(st.go(Phase::BeforeDoctypeName, 1))
        } else if c == '>' {
            fresh.with_quirks().emit_doctype()
        } else {
            quiet(fresh.with_doctype_name(name_char(c)).go(Phase::DoctypeName, 1))
        },
    }
}

pub open spec fn step_doctype_name(st: StateView, s: Seq<char>) -> StepResult {
    match st.next_char(s) {
        None => st.doctype_at_end(),
        Some(c) => if is_whitespace(c) {
            quiet(st.go(Phase::AfterDoctypeName, 1))
        } else if c == '>' {
            st.emit_doctype()
        } else {
            quiet(st.with_doctype_name(name_char(c)).go(Phase::DoctypeName, 1))
        },
    }
}

pub open spec fn step_after_doctype_name(st: StateView, s: Seq<char>) -> StepResult {
    match st.next_char(s) {
        None => st.doctype_at_end(),
        Some(c) => if is_whitespace(c) {
            quiet(st.go(Phase::AfterDoctypeName, 1))
        } else if c == '>' {
            st.emit_doctype()
        } else if keyword_at(s, st.pos, seq!['P', 'U', 'B', 'L', 'I', 'C'], true) {
            quiet(st.go(Phase::AfterDoctypePublicKeyword, 6))
        } else if keyword_at(s, st.pos, seq!['S', 'Y', 'S', 'T', 'E', 'M'], true) {
            quiet(st.go(Phase::AfterDoctypeSystemKeyword, 6))
        } else {
            quiet(st.with_quirks().go(Phase::BogusDoctype, 0))
        },
    }
}

/// The phases after a DOCTYPE keyword or before or between its
/// identifiers: whitespace moves to (or stays in) `on_space`, a quote opens
/// the identifier that `public` names, `>` ends the DOCTYPE (with quirks
/// unless `complete`), anything else makes it bogus.
pub open spec fn step_doctype_gap(
    st: StateView,
    s: Seq<char>,
    on_space: Phase,
    public: bool,
    complete: bool,
) -> StepResult {
    match st.next_char(s) {
        None => st.doctype_at_end(),
        Some(c) => if is_whitespace(c) {
            quiet(st.go(on_space, 1))
        } else if c == '"' || c == '\'' {
            let double = c == '"';
            if public {
                quiet(
                    st.with_public_id(Seq::empty()).go(
                        if double {
                            Phase::DoctypePublicIdentifierDoubleQuoted
                        } else {
                            Phase::DoctypePublicIdentifierSingleQuoted
                        },
                        1,
                    ),
                )
            } else {
                quiet(
                    st.with_system_id(Seq::empty()).go(
                        if double {
                            Phase::DoctypeSystemIdentifierDoubleQuoted
                        } else {
                            Phase::DoctypeSystemIdentifierSingleQuoted
                        },
                        1,
                    ),
                )
            }
        } else if c == '>' {
            if complete {
                st.emit_doctype()
            } else {
                st.with_quirks().emit_doctype()
            }
        } else {
            quiet(st.with_quirks().go(Phase::BogusDoctype, 0))
        },
    }
}

/// A quoted DOCTYPE identifier (public if `public`), closed by `quote`;
/// the phase after it is `after`.
pub open spec fn step_doctype_identifier(
    st: StateView,
    s: Seq<char>,
    quote: char,
    public: bool,
    after: Phase,
) -> StepResult {
    match st.next_char(s) {
        None => st.doctype_at_end(),
        Some(c) => if c == quote {
            quiet(st.go(after, 1))
        } else if c == '>' {
            st.with_quirks().emit_doctype()
        } else if public {
            quiet(
                st.with_public_id(st.doctype.public_identifier.unwrap_or(Seq::empty()).push(
                    text_char(c),
                )).go(st.phase, 1),
            )
        } else {
            quiet(
                st.with_system_id(st.doctype.system_identifier.unwrap_or(Seq::empty()).push(
                    text_char(c),
                )).go(st.phase, 1),
            )
        },
    }
}

pub open spec fn step_after_doctype_system_identifier(st: StateView, s: Seq<char>) -> StepResult {
    match st.next_char(s) {
        None => st.doctype_at_end(),
        Some(c) => if is_whitespace(c) {
            quiet(st.go(Phase::AfterDoctypeSystemIdentifier, 1))
        } else if c == '>' {
            st.emit_doctype()
        } else {
            quiet(st.go(Phase::BogusDoctype, 0))
        },
    }
}

pub open spec fn step_bogus_doctype(st: StateView, s: Seq<char>) -> StepResult {
    match st.next_char(s) {
        None => (
            StateView { doctype: DoctypeView::empty(), ..st.go(Phase::EOF, 0) },
            seq![TokenView::Doctype(st.doctype), TokenView::EOF],
        ),
        Some(c) => if c == '>' {
            st.emit_doctype()
        } else {
            quiet(st.go(Phase::BogusDoctype, 1))
        },
    }
}

pub open spec fn step_cdata_section(st: StateView, s: Seq<char>) -> StepResult {
    match st.next_char(s) {
        None => st.end_of_input(),
        Some(c) => if keyword_at(s, st.pos, seq![']', ']', '>'], false) {
            quiet(st.go(Phase::Data, 3))
        } else {
            (st.go(Phase::CdataSection, 1), seq![TokenView::Char(text_char(c))])
        },
    }
}

/// One step of the tokenizer from a state that is not terminal.
pub open spec fn step(st: StateView, s: Seq<char>) -> StepResult {
    match st.phase {
        Phase::Data => step_data(st, s),
        Phase::TagOpen => step_tag_open(st, s),
        Phase::EndTagOpen => step_end_tag_open(st, s),
        Phase::TagName => step_tag_name(st, s),
        Phase::BeforeAttributeName => step_before_attribute_name(st, s),
        Phase::AttributeName => step_attribute_name(st, s),
        Phase::AfterAttributeName => step_after_attribute_name(st, s),
        Phase::BeforeAttributeValue => step_before_attribute_value(st, s),
        Phase::AttributeValueDoubleQuoted => step_attribute_value_quoted(st, s, '"'),
        Phase::AttributeValueSingleQuoted => step_attribute_value_quoted(st, s, '\''),
        Phase::AttributeValueUnquoted => step_attribute_value_unquoted(st, s),
        Phase::AfterAttributeValueQuoted => step_after_attribute_value_quoted(st, s),
        Phase::SelfClosingStartTag => step_self_closing_start_tag(st, s),
        Phase::BogusComment => step_bogus_comment(st, s),
        Phase::MarkupDeclarationOpen => step_markup_declaration_open(st, s),
        Phase::CommentStart => step_comment_start(st, s),
        Phase::CommentStartDash => step_comment_start_dash(st, s),
        Phase::Comment => step_comment(st, s),
        Phase::CommentEndDash => step_comment_end_dash(st, s),
        Phase::CommentEnd => step_comment_end(st, s),
        Phase::CommentEndBang => step_comment_end_bang(st, s),
        Phase::Doctype => step_doctype(st, s),
        Phase::BeforeDoctypeName => step_before_doctype_name(st, s),
        Phase::DoctypeName => step_doctype_name(st, s),
        Phase::AfterDoctypeName => step_after_doctype_name(st, s),
        Phase::AfterDoctypePublicKeyword => step_doctype_gap(
            st,
            s,
            Phase::BeforeDoctypePublicIdentifier,
            true,
            false,
        ),
        Phase::BeforeDoctypePublicIdentifier => step_doctype_gap(
            st,
            s,
            Phase::BeforeDoctypePublicIdentifier,
            true,
            false,
        ),
        Phase::DoctypePublicIdentifierDoubleQuoted => step_doctype_identifier(
            st,
            s,
            '"',
            true,
            Phase::AfterDoctypePublicIdentifier,
        ),
        Phase::DoctypePublicIdentifierSingleQuoted => step_doctype_identifier(
            st,
            s,
            '\'',
            true,
            Phase::AfterDoctypePublicIdentifier,
        ),
        Phase::AfterDoctypePublicIdentifier => step_doctype_gap(
            st,
            s,
            Phase::BetweenDoctypePublicAndSystemIdentifiers,
            false,
            true,
        ),
        Phase::BetweenDoctypePublicAndSystemIdentifiers => step_doctype_gap(
            st,
            s,
            Phase::BetweenDoctypePublicAndSystemIdentifiers,
            false,
            true,
        ),
        Phase::AfterDoctypeSystemKeyword => step_doctype_gap(
            st,
            s,
            Phase::BeforeDoctypeSystemIdentifier,
            false,
            false,
        ),
        Phase::BeforeDoctypeSystemIdentifier => step_doctype_gap(
            st,
            s,
            Phase::BeforeDoctypeSystemIdentifier,
            false,
            false,
        ),
        Phase::DoctypeSystemIdentifierDoubleQuoted => step_doctype_identifier(
            st,
            s,
            '"',
            false,
            Phase::AfterDoctypeSystemIdentifier,
        ),
        Phase::DoctypeSystemIdentifierSingleQuoted => step_doctype_identifier(
            st,
            s,
            '\'',
            false,
            Phase::AfterDoctypeSystemIdentifier,
        ),
        Phase::AfterDoctypeSystemIdentifier => step_after_doctype_system_identifier(st, s),
        Phase::BogusDoctype => step_bogus_doctype(st, s),
        Phase::CdataSection => step_cdata_section(st, s),
        Phase::EOF => quiet(st),
    }
}

/// Whether the end of input in phase `p` is a parse error.
pub open spec fn error_at_end(p: Phase) -> bool {
    match p {
        Phase::Data
        | Phase::BeforeAttributeValue
        | Phase::BogusComment
        | Phase::CommentStart
        | Phase::BogusDoctype
        | Phase::EOF => false,
        _ => true,
    }
}

/// Whether the next character `c` is a parse error in the phase of `st`.
pub open spec fn error_on(st: StateView, s: Seq<char>, c: char) -> bool {
    let bad_reference = |in_attribute: bool|
        c == '&' && char_ref_error(s, st.pos + 1, in_attribute);
    match st.phase {
        Phase::Data => c == '\0' || bad_reference(false),
        Phase::TagOpen => !(c == '!' || c == '/' || is_ascii_alpha(c)),
        Phase::EndTagOpen => !is_ascii_alpha(c),
        Phase::TagName | Phase::DoctypeName | Phase::Comment | Phase::BogusComment
        | Phase::BogusDoctype => c == '\0',
        Phase::BeforeAttributeName => c == '=',
        Phase::AttributeName => c == '\0' || c == '"' || c == '\'' || c == '<',
        Phase::BeforeAttributeValue
        | Phase::CommentStart
        | Phase::CommentStartDash
        | Phase::CommentEndBang => c == '>',
        Phase::AttributeValueDoubleQuoted | Phase::AttributeValueSingleQuoted => c == '\0'
            || bad_reference(true),
        Phase::AttributeValueUnquoted => c == '\0' || c == '"' || c == '\'' || c == '<' || c
            == '=' || c == '`' || bad_reference(true),
        Phase::AfterAttributeValueQuoted => !(is_whitespace(c) || c == '/' || c == '>'),
        Phase::SelfClosingStartTag => c != '>' || st.tag.kind == TagKind::End,
        Phase::Doctype
        | Phase::AfterDoctypePublicIdentifier
        | Phase::AfterDoctypeSystemIdentifier => !(is_whitespace(c) || c == '>'),
        Phase::BeforeDoctypeName => c == '>' || c == '\0',
        Phase::AfterDoctypeName => !(is_whitespace(c) || c == '>' || keyword_at(
            s,
            st.pos,
            seq!['P', 'U', 'B', 'L', 'I', 'C'],
            true,
        ) || keyword_at(s, st.pos, seq!['S', 'Y', 'S', 'T', 'E', 'M'], true)),
        Phase::AfterDoctypePublicKeyword | Phase::AfterDoctypeSystemKeyword => !is_whitespace(c),
        Phase::BeforeDoctypePublicIdentifier | Phase::BeforeDoctypeSystemIdentifier => !(
        is_whitespace(c) || c == '"' || c == '\''),
        Phase::BetweenDoctypePublicAndSystemIdentifiers => !(is_whitespace(c) || c == '>' || c
            == '"' || c == '\''),
        Phase::DoctypePublicIdentifierDoubleQuoted
        | Phase::DoctypePublicIdentifierSingleQuoted
        | Phase::DoctypeSystemIdentifierDoubleQuoted
        | Phase::DoctypeSystemIdentifierSingleQuoted => c == '\0' || c == '>',
        _ => false,
    }
}

/// Whether the step from `st` reports a parse error: input that the
/// tokenizer recovers from, as the WHATWG rules name it.
pub open spec fn parse_error(st: StateView, s: Seq<char>) -> bool {
    if st.phase == Phase::MarkupDeclarationOpen {
        !keyword_at(s, st.pos, seq!['-', '-'], false) && !keyword_at(
            s,
            st.pos,
            seq!['D', 'O', 'C', 'T', 'Y', 'P', 'E'],
            true,
        ) && !keyword_at(s, st.pos, seq!['[', 'C', 'D', 'A', 'T', 'A', '['], false)
    } else {
        match st.next_char(s) {
            None => error_at_end(st.phase),
            Some(c) => error_on(st, s, c),
        }
    }
}

/// How many phases a phase may pass through, without consuming input,
/// before it consumes a character or ends.
pub open spec fn rank(p: Phase) -> int {
    match p {
        Phase::AfterAttributeValueQuoted | Phase::SelfClosingStartTag => 2,
        Phase::TagOpen
        | Phase::EndTagOpen
        | Phase::BeforeAttributeName
        | Phase::AfterAttributeName
        | Phase::BeforeAttributeValue
        | Phase::MarkupDeclarationOpen
        | Phase::CommentStart
        | Phase::CommentStartDash
        | Phase::CommentEndDash
        | Phase::CommentEnd
        | Phase::CommentEndBang
        | Phase::Doctype
        | Phase::AfterDoctypeName
        | Phase::AfterDoctypePublicKeyword
        | Phase::BeforeDoctypePublicIdentifier
        | Phase::AfterDoctypePublicIdentifier
        | Phase::BetweenDoctypePublicAndSystemIdentifiers
        | Phase::AfterDoctypeSystemKeyword
        | Phase::BeforeDoctypeSystemIdentifier
        | Phase::AfterDoctypeSystemIdentifier => 1,
        _ => 0,
    }
}

/// A bound on the steps left before the terminal state.
pub open spec fn measure(st: StateView, s: Seq<char>) -> int {
    if st.phase == Phase::EOF {
        0
    } else {
        (s.len() - st.pos) * 3 + rank(st.phase) + 1
    }
}

/// Whether no token of `ts` is the end of input.
pub open spec fn no_eof(ts: Seq<TokenView>) -> bool {
    forall|i: int| 0 <= i < ts.len() ==> !(#[trigger] ts[i] is EOF)
}

/// What a step's output looks like: it ends with the end-of-input token
/// exactly when the step reaches the terminal state, and holds no other.
pub open spec fn well_ended(r: StepResult) -> bool {
    if r.0.phase == Phase::EOF {
        &&& r.1.len() > 0
        &&& r.1.last() is EOF
        &&& no_eof(r.1.drop_last())
    } else {
        no_eof(r.1)
    }
}

/// Each step keeps the position within the input, brings the terminal
/// state closer, and emits the end of input exactly when it reaches it.
#[verifier::spinoff_prover]
#[verifier::rlimit(40)]
pub proof fn lemma_step_progress(st: StateView, s: Seq<char>)
    requires
        st.phase != Phase::EOF,
        0 <= st.pos <= s.len(),
    ensures
        0 <= step(st, s).0.pos <= s.len(),
        measure(step(st, s).0, s) < measure(st, s),
        well_ended(step(st, s)),
{
    if st.pos < s.len() {
        lemma_char_ref_bounds(s, st.pos + 1, false);
        lemma_char_ref_bounds(s, st.pos + 1, true);
        let r = char_ref(s, st.pos + 1, false);
        assert(no_eof(char_tokens(r.0)));
    }
    match st.phase {
        Phase::Data => {},
        Phase::TagOpen => {},
        Phase::EndTagOpen => {},
        Phase::TagName => {},
        Phase::BeforeAttributeName => {},
        Phase::AttributeName => {},
        Phase::AfterAttributeName => {},
        Phase::BeforeAttributeValue => {},
        Phase::AttributeValueDoubleQuoted => {},
        Phase::AttributeValueSingleQuoted => {},
        Phase::AttributeValueUnquoted => {},
        Phase::AfterAttributeValueQuoted => {},
        Phase::SelfClosingStartTag => {},
        Phase::BogusComment => {},
        Phase::MarkupDeclarationOpen => {},
        Phase::CommentStart => {},
        Phase::CommentStartDash => {},
        Phase::Comment => {},
        Phase::CommentEndDash => {},
        Phase::CommentEnd => {},
        Phase::CommentEndBang => {},
        Phase::Doctype => {},
        Phase::BeforeDoctypeName => {},
        Phase::DoctypeName => {},
        Phase::AfterDoctypeName => {},
        Phase::AfterDoctypePublicKeyword => {},
        Phase::BeforeDoctypePublicIdentifier => {},
        Phase::DoctypePublicIdentifierDoubleQuoted => {},
        Phase::DoctypePublicIdentifierSingleQuoted => {},
        Phase::AfterDoctypePublicIdentifier => {},
        Phase::BetweenDoctypePublicAndSystemIdentifiers => {},
        Phase::AfterDoctypeSystemKeyword => {},
        Phase::BeforeDoctypeSystemIdentifier => {},
        Phase::DoctypeSystemIdentifierDoubleQuoted => {},
        Phase::DoctypeSystemIdentifierSingleQuoted => {},
        Phase::AfterDoctypeSystemIdentifier => {},
        Phase::BogusDoctype => {},
        Phase::CdataSection => {},
        Phase::EOF => {},
    }
}

pub open spec fn valid(st: StateView, s: Seq<char>) -> bool {
    0 <= st.pos <= s.len()
}

/// The tokens emitted from `st` until the terminal state.
pub open spec fn run(st: StateView, s: Seq<char>) -> Seq<TokenView>
    decreases measure(st, s),
    when valid(st, s)
    via run_decreases
{
    if st.phase == Phase::EOF {
        Seq::empty()
    } else {
        let r = step(st, s);
        r.1 + run(r.0, s)
    }
}

#[via_fn]
proof fn run_decreases(st: StateView, s: Seq<char>) {
    if st.phase != Phase::EOF {
        lemma_step_progress(st, s);
    }
}

/// The whole token sequence of the input `s`.
pub open spec fn tokenize(s: Seq<char>) -> Seq<TokenView> {
    run(StateView::initial(), s)
}

/// The input positions at which the steps from `st` report parse errors,
/// in order.
pub open spec fn run_errors(st: StateView, s: Seq<char>) -> Seq<int>
    decreases measure(st, s),
    when valid(st, s)
    via run_errors_decreases
{
    if st.phase == Phase::EOF {
        Seq::empty()
    } else {
        (if parse_error(st, s) {
            seq![st.pos]
        } else {
            Seq::empty()
        }) + run_errors(step(st, s).0, s)
    }
}

#[via_fn]
proof fn run_errors_decreases(st: StateView, s: Seq<char>) {
    if st.phase != Phase::EOF {
        lemma_step_progress(st, s);
    }
}

/// The positions of the parse errors in the input `s`.
pub open spec fn error_positions(s: Seq<char>) -> Seq<int> {
    run_errors(StateView::initial(), s)
}

} // verus!
