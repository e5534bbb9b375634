//! Properties of the whole token sequence, proved over the model.
use vstd::prelude::*;
use crate::machine::{
    lemma_step_progress, name_char, no_eof, run, step, tokenize, valid, Phase, StateView,
};
use crate::text::{is_upper, lower};
use crate::token::{distinct_names, has_attribute, AttributeView, TagView, TokenView};

verus! {

/// What the run from a non-terminal state looks like: it ends with the
/// end-of-input token and holds no other.
pub open spec fn ends_once(ts: Seq<TokenView>) -> bool {
    &&& ts.len() > 0
    &&& ts.last() is EOF
    &&& no_eof(ts.drop_last())
}

pub proof fn lemma_run_ends_once(st: StateView, s: Seq<char>)
    requires
        valid(st, s),
        st.phase != Phase::EOF,
    ensures
        ends_once(run(st, s)),
    decreases crate::machine::measure(st, s),
{
    lemma_step_progress(st, s);
    let r = step(st, s);
    if r.0.phase == Phase::EOF {
        assert(run(r.0, s) =~= Seq::empty());
        assert(run(st, s) =~= r.1);
    } else {
        lemma_run_ends_once(r.0, s);
        let rest = run(r.0, s);
        assert(run(st, s) =~= r.1 + rest);
        assert((r.1 + rest).drop_last() =~= r.1 + rest.drop_last());
        assert(no_eof(r.1 + rest.drop_last())) by {
            assert forall|i: int| 0 <= i < (r.1 + rest.drop_last()).len() implies !((
            #[trigger] (r.1 + rest.drop_last())[i]) is EOF) by {
                if i < r.1.len() {
                    assert((r.1 + rest.drop_last())[i] == r.1[i]);
                } else {
                    assert((r.1 + rest.drop_last())[i] == rest.drop_last()[i - r.1.len()]);
                }
            }
        }
    }
}

/// For every input, the token sequence ends with exactly one end-of-input
/// token, and no token follows it.
pub proof fn law_single_end_of_input(s: Seq<char>)
    ensures
        tokenize(s).len() > 0,
        tokenize(s).last() is EOF,
        forall|i: int| 0 <= i < tokenize(s).len() - 1 ==> !(#[trigger] tokenize(s)[i] is EOF),
{
    lemma_run_ends_once(StateView::initial(), s);
    assert forall|i: int| 0 <= i < tokenize(s).len() - 1 implies !(
    #[trigger] tokenize(s)[i] is EOF) by {
        assert(tokenize(s).drop_last()[i] == tokenize(s)[i]);
    }
}

/// Whether `n` holds no ASCII upper-case letter.
pub open spec fn no_upper(n: Seq<char>) -> bool {
    forall|i: int| 0 <= i < n.len() ==> !is_upper(#[trigger] n[i])
}

pub open spec fn tag_names_lower(t: TagView) -> bool {
    &&& no_upper(t.name)
    &&& forall|i: int| 0 <= i < t.attributes.len() ==> no_upper(#[trigger] t.attributes[i].name)
}

/// The names a token carries (tag, attribute and DOCTYPE names) are in
/// lower case.
pub open spec fn token_names_lower(t: TokenView) -> bool {
    match t {
        TokenView::Tag(tag) => tag_names_lower(tag),
        TokenView::Doctype(d) => no_upper(d.name),
        _ => true,
    }
}

pub open spec fn all_names_lower(ts: Seq<TokenView>) -> bool {
    forall|i: int| 0 <= i < ts.len() ==> token_names_lower(#[trigger] ts[i])
}

pub open spec fn state_names_lower(st: StateView) -> bool {
    &&& tag_names_lower(st.tag)
    &&& no_upper(st.attribute.name)
    &&& no_upper(st.doctype.name)
}

proof fn lemma_name_char_not_upper(c: char)
    ensures
        !is_upper(name_char(c)),
        !is_upper(lower(c)),
{
}

#[verifier::spinoff_prover]
#[verifier::rlimit(60)]
proof fn lemma_step_names_lower(st: StateView, s: Seq<char>)
    requires
        valid(st, s),
        st.phase != Phase::EOF,
        state_names_lower(st),
    ensures
        state_names_lower(step(st, s).0),
        all_names_lower(step(st, s).1),
{
    if 0 <= st.pos < s.len() {
        lemma_name_char_not_upper(s[st.pos]);
    }
    assert(no_upper(seq!['=']));
    assert(tag_names_lower(st.tag.add_attribute(st.attribute)));
    match st.phase {
        Phase::Data => {},
        Phase::TagOpen => {},
        Phase::EndTagOpen => {},
        Phase::TagName => {},
        Phase::BeforeAttributeName => {},
        Phase::AttributeName => {},
        Phase::AfterAttributeName => {},
        Phase::BeforeAttributeValue => {},
        Phase::AttributeValueDoubleQuoted => {},
        Phase::AttributeValueSingleQuoted => {},
        Phase::AttributeValueUnquoted => {},
        Phase::AfterAttributeValueQuoted => {},
        Phase::SelfClosingStartTag => {},
        Phase::BogusComment => {},
        Phase::MarkupDeclarationOpen => {},
        Phase::CommentStart => {},
        Phase::CommentStartDash => {},
        Phase::Comment => {},
        Phase::CommentEndDash => {},
        Phase::CommentEnd => {},
        Phase::CommentEndBang => {},
        Phase::Doctype => {},
        Phase::BeforeDoctypeName => {},
        Phase::DoctypeName => {},
        Phase::AfterDoctypeName => {},
        Phase::AfterDoctypePublicKeyword => {},
        Phase::BeforeDoctypePublicIdentifier => {},
        Phase::DoctypePublicIdentifierDoubleQuoted => {},
        Phase::DoctypePublicIdentifierSingleQuoted => {},
        Phase::AfterDoctypePublicIdentifier => {},
        Phase::BetweenDoctypePublicAndSystemIdentifiers => {},
        Phase::AfterDoctypeSystemKeyword => {},
        Phase::BeforeDoctypeSystemIdentifier => {},
        Phase::DoctypeSystemIdentifierDoubleQuoted => {},
        Phase::DoctypeSystemIdentifierSingleQuoted => {},
        Phase::AfterDoctypeSystemIdentifier => {},
        Phase::BogusDoctype => {},
        Phase::CdataSection => {},
        Phase::EOF => {},
    }
}

proof fn lemma_run_names_lower(st: StateView, s: Seq<char>)
    requires
        valid(st, s),
        state_names_lower(st),
    ensures
        all_names_lower(run(st, s)),
    decreases crate::machine::measure(st, s),
{
    if st.phase != Phase::EOF {
        lemma_step_progress(st, s);
        lemma_step_names_lower(st, s);
        let r = step(st, s);
        lemma_run_names_lower(r.0, s);
        let rest = run(r.0, s);
        assert(run(st, s) == r.1 + rest);
        assert forall|i: int| 0 <= i < (r.1 + rest).len() implies token_names_lower(
            #[trigger] (r.1 + rest)[i],
        ) by {
            if i < r.1.len() {
                assert((r.1 + rest)[i] == r.1[i]);
            } else {
                assert((r.1 + rest)[i] == rest[i - r.1.len()]);
            }
        }
    }
}

/// For every input, tag names, attribute names and DOCTYPE names in the
/// token sequence hold no ASCII upper-case letter, whatever the case of
/// the input.
pub proof fn law_names_lowercase(s: Seq<char>)
    ensures
        all_names_lower(tokenize(s)),
{
    lemma_run_names_lower(StateView::initial(), s);
}

/// Tags carry no two attributes of the same name.
pub open spec fn token_attributes_distinct(t: TokenView) -> bool {
    match t {
        TokenView::Tag(tag) => distinct_names(tag.attributes),
        _ => true,
    }
}

pub open spec fn all_attributes_distinct(ts: Seq<TokenView>) -> bool {
    forall|i: int| 0 <= i < ts.len() ==> token_attributes_distinct(#[trigger] ts[i])
}

proof fn lemma_add_attribute_distinct(t: TagView, a: AttributeView)
    requires
        distinct_names(t.attributes),
    ensures
        distinct_names(t.add_attribute(a).attributes),
{
    if !has_attribute(t.attributes, a.name) {
        let r = t.attributes.push(a);
        assert forall|i: int, j: int|
            0 <= i < r.len() && 0 <= j < r.len() && i != j implies #[trigger] r[i].name
            != #[trigger] r[j].name by {
            if i == r.len() - 1 {
                assert(r[j] == t.attributes[j]);
            } else if j == r.len() - 1 {
                assert(r[i] == t.attributes[i]);
            } else {
                assert(r[i] == t.attributes[i]);
                assert(r[j] == t.attributes[j]);
            }
        }
    }
}

#[verifier::spinoff_prover]
#[verifier::rlimit(60)]
proof fn lemma_step_attributes_distinct(st: StateView, s: Seq<char>)
    requires
        valid(st, s),
        st.phase != Phase::EOF,
        distinct_names(st.tag.attributes),
    ensures
        distinct_names(step(st, s).0.tag.attributes),
        all_attributes_distinct(step(st, s).1),
{
    lemma_add_attribute_distinct(st.tag, st.attribute);
    assert(distinct_names(Seq::<AttributeView>::empty()));
    match st.phase {
        Phase::Data => {},
        Phase::TagOpen => {},
        Phase::EndTagOpen => {},
        Phase::TagName => {},
        Phase::BeforeAttributeName => {},
        Phase::AttributeName => {},
        Phase::AfterAttributeName => {},
        Phase::BeforeAttributeValue => {},
        Phase::AttributeValueDoubleQuoted => {},
        Phase::AttributeValueSingleQuoted => {},
        Phase::AttributeValueUnquoted => {},
        Phase::AfterAttributeValueQuoted => {},
        Phase::SelfClosingStartTag => {},
        Phase::BogusComment => {},
        Phase::MarkupDeclarationOpen => {},
        Phase::CommentStart => {},
        Phase::CommentStartDash => {},
        Phase::Comment => {},
        Phase::CommentEndDash => {},
        Phase::CommentEnd => {},
        Phase::CommentEndBang => {},
        Phase::Doctype => {},
        Phase::BeforeDoctypeName => {},
        Phase::DoctypeName => {},
        Phase::AfterDoctypeName => {},
        Phase::AfterDoctypePublicKeyword => {},
        Phase::BeforeDoctypePublicIdentifier => {},
        Phase::DoctypePublicIdentifierDoubleQuoted => {},
        Phase::DoctypePublicIdentifierSingleQuoted => {},
        Phase::AfterDoctypePublicIdentifier => {},
        Phase::BetweenDoctypePublicAndSystemIdentifiers => {},
        Phase::AfterDoctypeSystemKeyword => {},
        Phase::BeforeDoctypeSystemIdentifier => {},
        Phase::DoctypeSystemIdentifierDoubleQuoted => {},
        Phase::DoctypeSystemIdentifierSingleQuoted => {},
        Phase::AfterDoctypeSystemIdentifier => {},
        Phase::BogusDoctype => {},
        Phase::CdataSection => {},
        Phase::EOF => {},
    }
}

proof fn lemma_run_attributes_distinct(st: StateView, s: Seq<char>)
    requires
        valid(st, s),
        distinct_names(st.tag.attributes),
    ensures
        all_attributes_distinct(run(st, s)),
    decreases crate::machine::measure(st, s),
{
    if st.phase != Phase::EOF {
        lemma_step_progress(st, s);
        lemma_step_attributes_distinct(st, s);
        let r = step(st, s);
        lemma_run_attributes_distinct(r.0, s);
        let rest = run(r.0, s);
        assert(run(st, s) == r.1 + rest);
        assert forall|i: int| 0 <= i < (r.1 + rest).len() implies token_attributes_distinct(
            #[trigger] (r.1 + rest)[i],
        ) by {
            if i < r.1.len() {
                assert((r.1 + rest)[i] == r.1[i]);
            } else {
                assert((r.1 + rest)[i] == rest[i - r.1.len()]);
            }
        }
    }
}

/// For every input, no tag in the token sequence carries two attributes
/// of the same name: where the input repeats a name, the first one is
/// kept.
pub proof fn law_attribute_names_unique(s: Seq<char>)
    ensures
        all_attributes_distinct(tokenize(s)),
{
    assert(distinct_names(StateView::initial().tag.attributes));
    lemma_run_attributes_distinct(StateView::initial(), s);
}

} // verus!
