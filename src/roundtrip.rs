//! Writing character and tag tokens out as markup and tokenizing that
//! markup again gives the same tokens back.
use vstd::prelude::*;
use crate::html::{attribute_html, attributes_html, tag_html, token_html, tokens_html};
use crate::machine::{
    is_ascii_alpha, is_whitespace, lemma_step_progress, run, step, tokenize, valid, Phase,
    StateView,
};
use crate::text::is_upper;
use crate::token::{distinct_names, has_attribute, AttributeView, TagKind, TagView, TokenView};

verus! {

/// A character that stands for itself in a tag name.
pub open spec fn tag_name_char_ok(c: char) -> bool {
    !is_whitespace(c) && c != '/' && c != '>' && c != '\0' && !is_upper(c)
}

/// A character that stands for itself in an attribute name.
pub open spec fn attribute_name_char_ok(c: char) -> bool {
    tag_name_char_ok(c) && c != '='
}

/// A character that stands for itself in a double-quoted value.
pub open spec fn attribute_value_char_ok(c: char) -> bool {
    c != '"' && c != '&' && c != '\0'
}

/// A character that stands for itself in text.
pub open spec fn text_char_ok(c: char) -> bool {
    c != '<' && c != '&' && c != '\0'
}

pub open spec fn clean_attribute(a: AttributeView) -> bool {
    &&& a.name.len() > 0
    &&& forall|k: int| 0 <= k < a.name.len() ==> attribute_name_char_ok(#[trigger] a.name[k])
    &&& forall|k: int| 0 <= k < a.value.len() ==> attribute_value_char_ok(#[trigger] a.value[k])
}

/// A tag that its markup writes unambiguously: a lower-case name that
/// starts with a letter, distinct attributes whose names and values need
/// no escaping, and no self-closing flag on an end tag.
pub open spec fn clean_tag(t: TagView) -> bool {
    &&& t.name.len() > 0
    &&& is_ascii_alpha(t.name[0])
    &&& (t.kind == TagKind::End ==> !t.self_closing)
    &&& forall|k: int| 0 <= k < t.name.len() ==> tag_name_char_ok(#[trigger] t.name[k])
    &&& forall|i: int| 0 <= i < t.attributes.len() ==> clean_attribute(#[trigger] t.attributes[i])
    &&& distinct_names(t.attributes)
}

pub open spec fn clean_token(t: TokenView) -> bool {
    match t {
        TokenView::Char(c) => text_char_ok(c),
        TokenView::Tag(tag) => clean_tag(tag),
        _ => false,
    }
}

/// From `st` the tokenizer emits `out` and reaches `st2`.
pub open spec fn leads(st: StateView, s: Seq<char>, out: Seq<TokenView>, st2: StateView) -> bool {
    &&& valid(st2, s)
    &&& run(st, s) == out + run(st2, s)
}

/// `s` holds `piece` at `p`.
pub open spec fn holds_at(s: Seq<char>, p: int, piece: Seq<char>) -> bool {
    &&& 0 <= p
    &&& p + piece.len() <= s.len()
    &&& s.subrange(p, p + piece.len()) == piece
}

proof fn lemma_holds_split(s: Seq<char>, p: int, a: Seq<char>, b: Seq<char>)
    requires
        holds_at(s, p, a + b),
    ensures
        holds_at(s, p, a),
        holds_at(s, p + a.len(), b),
{
    let w = s.subrange(p, p + a.len() + b.len());
    assert(w == a + b);
    assert(s.subrange(p, p + a.len()) =~= w.subrange(0, a.len() as int));
    assert(w.subrange(0, a.len() as int) =~= a);
    assert(s.subrange(p + a.len(), p + a.len() + b.len()) =~= w.subrange(
        a.len() as int,
        w.len() as int,
    ));
    assert(w.subrange(a.len() as int, w.len() as int) =~= b);
}

proof fn lemma_holds_char(s: Seq<char>, p: int, c: char)
    requires
        holds_at(s, p, seq![c]),
    ensures
        p < s.len(),
        s[p] == c,
{
    assert(s.subrange(p, p + 1)[0] == s[p]);
}

proof fn lemma_leads_step(st: StateView, s: Seq<char>)
    requires
        valid(st, s),
        st.phase != Phase::EOF,
    ensures
        leads(st, s, step(st, s).1, step(st, s).0),
{
    lemma_step_progress(st, s);
}

proof fn lemma_leads_trans(
    a: StateView,
    s: Seq<char>,
    o1: Seq<TokenView>,
    b: StateView,
    o2: Seq<TokenView>,
    c: StateView,
)
    requires
        leads(a, s, o1, b),
        leads(b, s, o2, c),
    ensures
        leads(a, s, o1 + o2, c),
{
    assert(o1 + (o2 + run(c, s)) =~= (o1 + o2) + run(c, s));
}

proof fn lemma_leads_refl(st: StateView, s: Seq<char>)
    requires
        valid(st, s),
    ensures
        leads(st, s, Seq::empty(), st),
{
    assert(Seq::<TokenView>::empty() + run(st, s) =~= run(st, s));
}

/// Quiet steps that only consume: `leads` with nothing emitted.
proof fn lemma_quiet_step(st: StateView, s: Seq<char>)
    requires
        valid(st, s),
        st.phase != Phase::EOF,
        step(st, s).1 == Seq::<TokenView>::empty(),
    ensures
        leads(st, s, Seq::empty(), step(st, s).0),
{
    lemma_leads_step(st, s);
}

proof fn lemma_tag_name_chars(st: StateView, s: Seq<char>, cs: Seq<char>)
    requires
        valid(st, s),
        st.phase == Phase::TagName,
        holds_at(s, st.pos, cs),
        forall|k: int| 0 <= k < cs.len() ==> tag_name_char_ok(#[trigger] cs[k]),
    ensures
        leads(
            st,
            s,
            Seq::empty(),
            StateView {
                tag: TagView { name: st.tag.name + cs, ..st.tag },
                pos: st.pos + cs.len(),
                ..st
            },
        ),
    decreases cs.len(),
{
    if cs.len() == 0 {
        lemma_leads_refl(st, s);
        assert(st.tag.name + cs =~= st.tag.name);
        assert(StateView { tag: TagView { name: st.tag.name + cs, ..st.tag }, pos: st.pos + cs.len(), ..st } == st);
    } else {
        let c = cs[0];
        assert(seq![c] + cs.drop_first() =~= cs);
        lemma_holds_split(s, st.pos, seq![c], cs.drop_first());
        lemma_holds_char(s, st.pos, c);
        assert(tag_name_char_ok(cs[0]));
        lemma_quiet_step(st, s);
        let st2 = step(st, s).0;
        lemma_tag_name_chars(st2, s, cs.drop_first());
        assert(st.tag.name.push(c) + cs.drop_first() =~= st.tag.name + cs);
        lemma_leads_trans(
            st,
            s,
            Seq::empty(),
            st2,
            Seq::empty(),
            StateView {
                tag: TagView { name: st2.tag.name + cs.drop_first(), ..st2.tag },
                pos: st2.pos + cs.drop_first().len(),
                ..st2
            },
        );
        assert(Seq::<TokenView>::empty() + Seq::<TokenView>::empty() =~= Seq::<TokenView>::empty());
    }
}

proof fn lemma_attribute_name_chars(st: StateView, s: Seq<char>, cs: Seq<char>)
    requires
        valid(st, s),
        st.phase == Phase::AttributeName,
        holds_at(s, st.pos, cs),
        forall|k: int| 0 <= k < cs.len() ==> attribute_name_char_ok(#[trigger] cs[k]),
    ensures
        leads(
            st,
            s,
            Seq::empty(),
            StateView {
                attribute: AttributeView { name: st.attribute.name + cs, ..st.attribute },
                pos: st.pos + cs.len(),
                ..st
            },
        ),
    decreases cs.len(),
{
    if cs.len() == 0 {
        lemma_leads_refl(st, s);
        assert(st.attribute.name + cs =~= st.attribute.name);
        assert(StateView {
            attribute: AttributeView { name: st.attribute.name + cs, ..st.attribute },
            pos: st.pos + cs.len(),
            ..st
        } == st);
    } else {
        let c = cs[0];
        assert(seq![c] + cs.drop_first() =~= cs);
        lemma_holds_split(s, st.pos, seq![c], cs.drop_first());
        lemma_holds_char(s, st.pos, c);
        assert(attribute_name_char_ok(cs[0]));
        lemma_quiet_step(st, s);
        let st2 = step(st, s).0;
        lemma_attribute_name_chars(st2, s, cs.drop_first());
        assert(st.attribute.name.push(c) + cs.drop_first() =~= st.attribute.name + cs);
        lemma_leads_trans(
            st,
            s,
            Seq::empty(),
            st2,
            Seq::empty(),
            StateView {
                attribute: AttributeView {
                    name: st2.attribute.name + cs.drop_first(),
                    ..st2.attribute
                },
                pos: st2.pos + cs.drop_first().len(),
                ..st2
            },
        );
        assert(Seq::<TokenView>::empty() + Seq::<TokenView>::empty() =~= Seq::<TokenView>::empty());
    }
}

proof fn lemma_attribute_value_chars(st: StateView, s: Seq<char>, cs: Seq<char>)
    requires
        valid(st, s),
        st.phase == Phase::AttributeValueDoubleQuoted,
        holds_at(s, st.pos, cs),
        forall|k: int| 0 <= k < cs.len() ==> attribute_value_char_ok(#[trigger] cs[k]),
    ensures
        leads(
            st,
            s,
            Seq::empty(),
            StateView {
                attribute: AttributeView { value: st.attribute.value + cs, ..st.attribute },
                pos: st.pos + cs.len(),
                ..st
            },
        ),
    decreases cs.len(),
{
    if cs.len() == 0 {
        lemma_leads_refl(st, s);
        assert(st.attribute.value + cs =~= st.attribute.value);
        assert(StateView {
            attribute: AttributeView { value: st.attribute.value + cs, ..st.attribute },
            pos: st.pos + cs.len(),
            ..st
        } == st);
    } else {
        let c = cs[0];
        assert(seq![c] + cs.drop_first() =~= cs);
        lemma_holds_split(s, st.pos, seq![c], cs.drop_first());
        lemma_holds_char(s, st.pos, c);
        assert(attribute_value_char_ok(cs[0]));
        lemma_quiet_step(st, s);
        let st2 = step(st, s).0;
        lemma_attribute_value_chars(st2, s, cs.drop_first());
        assert((st.attribute.value + seq![c]) + cs.drop_first() =~= st.attribute.value + cs);
        lemma_leads_trans(
            st,
            s,
            Seq::empty(),
            st2,
            Seq::empty(),
            StateView {
                attribute: AttributeView {
                    value: st2.attribute.value + cs.drop_first(),
                    ..st2.attribute
                },
                pos: st2.pos + cs.drop_first().len(),
                ..st2
            },
        );
        assert(Seq::<TokenView>::empty() + Seq::<TokenView>::empty() =~= Seq::<TokenView>::empty());
    }
}

/// Whether the tokenizer is between attributes of a tag: after its name
/// or after a quoted value.
pub open spec fn at_attribute_boundary(p: Phase) -> bool {
    p == Phase::TagName || p == Phase::AfterAttributeValueQuoted
}

/// One ` name="value"` moves the tokenizer from a boundary to the next,
/// with the attribute appended to the tag.
proof fn lemma_attribute(st: StateView, s: Seq<char>, a: AttributeView)
    requires
        valid(st, s),
        at_attribute_boundary(st.phase),
        holds_at(s, st.pos, seq![' '] + attribute_html(a)),
        clean_attribute(a),
        !has_attribute(st.tag.attributes, a.name),
    ensures
        leads(
            st,
            s,
            Seq::empty(),
            StateView {
                phase: Phase::AfterAttributeValueQuoted,
                pos: st.pos + 1 + attribute_html(a).len(),
                tag: TagView { attributes: st.tag.attributes.push(a), ..st.tag },
                attribute: AttributeView::empty(),
                ..st
            },
        ),
{
    let e = Seq::<TokenView>::empty();
    let p = st.pos;
    let n = a.name.len();
    let v = a.value.len();
    assert(seq![' '] + attribute_html(a) =~= seq![' '] + a.name + seq!['='] + seq!['"'] + a.value
        + seq!['"']);
    lemma_holds_split(s, p, seq![' '] + a.name + seq!['='] + seq!['"'] + a.value, seq!['"']);
    lemma_holds_split(s, p, seq![' '] + a.name + seq!['='] + seq!['"'], a.value);
    lemma_holds_split(s, p, seq![' '] + a.name + seq!['='], seq!['"']);
    lemma_holds_split(s, p, seq![' '] + a.name, seq!['=']);
    lemma_holds_split(s, p, seq![' '], a.name);
    lemma_holds_char(s, p, ' ');
    lemma_holds_char(s, p + 1 + n, '=');
    lemma_holds_char(s, p + 2 + n, '"');
    lemma_holds_char(s, p + 3 + n + v, '"');
    // the space
    lemma_quiet_step(st, s);
    let s1 = step(st, s).0;
    assert(s1.phase == Phase::BeforeAttributeName && s1.pos == p + 1);
    // the first character of the name starts the attribute
    assert(a.name[0] == s[p + 1]) by {
        assert(s.subrange(p + 1, p + 1 + n)[0] == s[p + 1]);
    }
    assert(attribute_name_char_ok(a.name[0]));
    lemma_quiet_step(s1, s);
    let s2 = step(s1, s).0;
    assert(s2.phase == Phase::AttributeName && s2.pos == p + 1);
    assert(s2.attribute == AttributeView::empty());
    lemma_attribute_name_chars(s2, s, a.name);
    let s3 = StateView {
        attribute: AttributeView { name: s2.attribute.name + a.name, ..s2.attribute },
        pos: s2.pos + a.name.len(),
        ..s2
    };
    assert(s2.attribute.name + a.name =~= a.name);
    // `=` and the opening quote
    lemma_quiet_step(s3, s);
    let s4 = step(s3, s).0;
    assert(s4.phase == Phase::BeforeAttributeValue);
    lemma_quiet_step(s4, s);
    let s5 = step(s4, s).0;
    assert(s5.phase == Phase::AttributeValueDoubleQuoted && s5.pos == p + 3 + n);
    lemma_attribute_value_chars(s5, s, a.value);
    let s6 = StateView {
        attribute: AttributeView { value: s5.attribute.value + a.value, ..s5.attribute },
        pos: s5.pos + a.value.len(),
        ..s5
    };
    assert(s5.attribute.value + a.value =~= a.value);
    assert(s6.attribute == a);
    // the closing quote commits the attribute
    lemma_quiet_step(s6, s);
    let s7 = step(s6, s).0;
    lemma_leads_trans(st, s, e, s1, e, s2);
    lemma_leads_trans(st, s, e + e, s2, e, s3);
    lemma_leads_trans(st, s, e + e + e, s3, e, s4);
    lemma_leads_trans(st, s, e + e + e + e, s4, e, s5);
    lemma_leads_trans(st, s, e + e + e + e + e, s5, e, s6);
    lemma_leads_trans(st, s, e + e + e + e + e + e, s6, e, s7);
    assert(e + e + e + e + e + e + e =~= e);
    assert(s7 == StateView {
        phase: Phase::AfterAttributeValueQuoted,
        pos: st.pos + 1 + attribute_html(a).len(),
        tag: TagView { attributes: st.tag.attributes.push(a), ..st.tag },
        attribute: AttributeView::empty(),
        ..st
    });
}

proof fn lemma_attribute_list(st: StateView, s: Seq<char>, attrs: Seq<AttributeView>)
    requires
        valid(st, s),
        at_attribute_boundary(st.phase),
        holds_at(s, st.pos, attributes_html(attrs)),
        forall|i: int| 0 <= i < attrs.len() ==> clean_attribute(#[trigger] attrs[i]),
        distinct_names(st.tag.attributes + attrs),
    ensures
        leads(
            st,
            s,
            Seq::empty(),
            StateView {
                phase: if attrs.len() == 0 {
                    st.phase
                } else {
                    Phase::AfterAttributeValueQuoted
                },
                pos: st.pos + attributes_html(attrs).len(),
                tag: TagView { attributes: st.tag.attributes + attrs, ..st.tag },
                attribute: if attrs.len() == 0 {
                    st.attribute
                } else {
                    AttributeView::empty()
                },
                ..st
            },
        ),
    decreases attrs.len(),
{
    let t = st.tag.attributes;
    if attrs.len() == 0 {
        lemma_leads_refl(st, s);
        assert(t + attrs =~= t);
        assert(StateView {
            phase: st.phase,
            pos: st.pos + attributes_html(attrs).len(),
            tag: TagView { attributes: t + attrs, ..st.tag },
            attribute: st.attribute,
            ..st
        } == st);
    } else {
        let init = attrs.drop_last();
        let a = attrs.last();
        assert(attributes_html(attrs) == attributes_html(init) + seq![' '] + attribute_html(a));
        assert(attributes_html(init) + seq![' '] + attribute_html(a) =~= attributes_html(init) + (
        seq![' '] + attribute_html(a)));
        lemma_holds_split(s, st.pos, attributes_html(init), seq![' '] + attribute_html(a));
        assert forall|i: int, j: int|
            0 <= i < (t + init).len() && 0 <= j < (t + init).len() && i != j implies #[trigger] (t
            + init)[i].name != #[trigger] (t + init)[j].name by {
            assert((t + init)[i] == (t + attrs)[i]);
            assert((t + init)[j] == (t + attrs)[j]);
        }
        assert forall|i: int| 0 <= i < init.len() implies clean_attribute(#[trigger] init[i]) by {
            assert(init[i] == attrs[i]);
        }
        lemma_attribute_list(st, s, init);
        let m = StateView {
            phase: if init.len() == 0 {
                st.phase
            } else {
                Phase::AfterAttributeValueQuoted
            },
            pos: st.pos + attributes_html(init).len(),
            tag: TagView { attributes: t + init, ..st.tag },
            attribute: if init.len() == 0 {
                st.attribute
            } else {
                AttributeView::empty()
            },
            ..st
        };
        assert(!has_attribute(t + init, a.name)) by {
            if has_attribute(t + init, a.name) {
                let i = choose|i: int| 0 <= i < (t + init).len() && #[trigger] (t + init)[i].name == a.name;
                assert((t + init)[i] == (t + attrs)[i]);
                assert((t + attrs)[(t + attrs).len() - 1] == a);
            }
        }
        assert(clean_attribute(attrs[attrs.len() - 1]));
        lemma_attribute(m, s, a);
        let f = StateView {
            phase: Phase::AfterAttributeValueQuoted,
            pos: m.pos + 1 + attribute_html(a).len(),
            tag: TagView { attributes: m.tag.attributes.push(a), ..m.tag },
            attribute: AttributeView::empty(),
            ..m
        };
        lemma_leads_trans(st, s, Seq::empty(), m, Seq::empty(), f);
        assert(Seq::<TokenView>::empty() + Seq::<TokenView>::empty() =~= Seq::<TokenView>::empty());
        assert((t + init).push(a) =~= t + attrs);
    }
}

/// A clean tag's markup, read from text, emits that tag and returns to
/// text right after it.
#[verifier::spinoff_prover]
#[verifier::rlimit(40)]
proof fn lemma_tag(st: StateView, s: Seq<char>, t: TagView) -> (st2: StateView)
    requires
        valid(st, s),
        st.phase == Phase::Data,
        holds_at(s, st.pos, tag_html(t)),
        clean_tag(t),
    ensures
        st2.phase == Phase::Data,
        st2.pos == st.pos + tag_html(t).len(),
        leads(st, s, seq![TokenView::Tag(t)], st2),
{
    let e = Seq::<TokenView>::empty();
    let p = st.pos;
    let open = if t.kind == TagKind::End {
        seq!['<', '/']
    } else {
        seq!['<']
    };
    let close = if t.self_closing {
        seq!['/', '>']
    } else {
        seq!['>']
    };
    let ah = attributes_html(t.attributes);
    let ol = open.len() as int;
    let n = t.name.len() as int;
    let al = ah.len() as int;
    assert(tag_html(t) == open + t.name + ah + close);
    lemma_holds_split(s, p, open + t.name + ah, close);
    lemma_holds_split(s, p, open + t.name, ah);
    lemma_holds_split(s, p, open, t.name);
    // `<`, and `/` for an end tag
    assert(open =~= seq!['<'] + open.drop_first());
    lemma_holds_split(s, p, seq!['<'], open.drop_first());
    lemma_holds_char(s, p, '<');
    lemma_quiet_step(st, s);
    let s1 = step(st, s).0;
    let s2 = if t.kind == TagKind::End {
        assert(open.drop_first() =~= seq!['/']);
        lemma_holds_char(s, p + 1, '/');
        lemma_quiet_step(s1, s);
        step(s1, s).0
    } else {
        s1
    };
    if t.kind == TagKind::End {
        lemma_leads_trans(st, s, e, s1, e, s2);
    } else {
        assert(e + e =~= e);
    }
    assert(s2.pos == p + ol);
    assert(s2.phase == if t.kind == TagKind::End {
        Phase::EndTagOpen
    } else {
        Phase::TagOpen
    });
    // the first letter of the name opens the tag
    let c0 = t.name[0];
    assert(seq![c0] + t.name.drop_first() =~= t.name);
    lemma_holds_split(s, p + ol, seq![c0], t.name.drop_first());
    lemma_holds_char(s, p + ol, c0);
    assert(tag_name_char_ok(t.name[0]));
    lemma_quiet_step(s2, s);
    let s3 = step(s2, s).0;
    assert(s3.phase == Phase::TagName);
    assert(s3.tag == TagView { name: seq![c0], ..TagView::empty(t.kind) });
    assert forall|k: int| 0 <= k < t.name.drop_first().len() implies tag_name_char_ok(
        #[trigger] t.name.drop_first()[k],
    ) by {
        assert(t.name.drop_first()[k] == t.name[k + 1]);
    }
    lemma_tag_name_chars(s3, s, t.name.drop_first());
    let s4 = StateView {
        tag: TagView { name: s3.tag.name + t.name.drop_first(), ..s3.tag },
        pos: s3.pos + t.name.drop_first().len(),
        ..s3
    };
    assert(s4.tag.name == t.name);
    assert(s4.pos == p + ol + n);
    // the attributes
    assert(s4.tag.attributes + t.attributes =~= t.attributes);
    lemma_attribute_list(s4, s, t.attributes);
    let s5 = StateView {
        phase: if t.attributes.len() == 0 {
            s4.phase
        } else {
            Phase::AfterAttributeValueQuoted
        },
        pos: s4.pos + al,
        tag: TagView { attributes: s4.tag.attributes + t.attributes, ..s4.tag },
        attribute: if t.attributes.len() == 0 {
            s4.attribute
        } else {
            AttributeView::empty()
        },
        ..s4
    };
    assert(s5.tag == TagView { self_closing: false, ..t });
    lemma_leads_trans(st, s, e + e, s2, e, s3);
    lemma_leads_trans(st, s, e + e + e, s3, e, s4);
    lemma_leads_trans(st, s, e + e + e + e, s4, e, s5);
    assert(e + e + e + e + e =~= e);
    // `>`, or `/>` for a self-closing tag
    let q = p + ol + n + al;
    if t.self_closing {
        assert(close =~= seq!['/'] + seq!['>']);
        lemma_holds_split(s, q, seq!['/'], seq!['>']);
        lemma_holds_char(s, q, '/');
        lemma_holds_char(s, q + 1, '>');
        lemma_quiet_step(s5, s);
        let s6 = step(s5, s).0;
        assert(s6.phase == Phase::SelfClosingStartTag);
        lemma_leads_step(s6, s);
        let s7 = step(s6, s).0;
        assert(step(s6, s).1 == seq![TokenView::Tag(t)]);
        lemma_leads_trans(st, s, e, s5, e, s6);
        lemma_leads_trans(st, s, e + e, s6, seq![TokenView::Tag(t)], s7);
        assert(e + e + seq![TokenView::Tag(t)] =~= seq![TokenView::Tag(t)]);
        s7
    } else {
        lemma_holds_char(s, q, '>');
        lemma_leads_step(s5, s);
        let s6 = step(s5, s).0;
        assert(step(s5, s).1 == seq![TokenView::Tag(t)]);
        lemma_leads_trans(st, s, e, s5, seq![TokenView::Tag(t)], s6);
        assert(e + seq![TokenView::Tag(t)] =~= seq![TokenView::Tag(t)]);
        s6
    }
}

proof fn lemma_token(st: StateView, s: Seq<char>, t: TokenView) -> (st2: StateView)
    requires
        valid(st, s),
        st.phase == Phase::Data,
        holds_at(s, st.pos, token_html(t)),
        clean_token(t),
    ensures
        st2.phase == Phase::Data,
        st2.pos == st.pos + token_html(t).len(),
        leads(st, s, seq![t], st2),
{
    match t {
        TokenView::Char(c) => {
            lemma_holds_char(s, st.pos, c);
            lemma_leads_step(st, s);
            step(st, s).0
        },
        TokenView::Tag(tag) => lemma_tag(st, s, tag),
        _ => st,
    }
}

proof fn lemma_tokens(st: StateView, s: Seq<char>, ts: Seq<TokenView>) -> (st2: StateView)
    requires
        valid(st, s),
        st.phase == Phase::Data,
        holds_at(s, st.pos, tokens_html(ts)),
        forall|i: int| 0 <= i < ts.len() ==> clean_token(#[trigger] ts[i]),
    ensures
        st2.phase == Phase::Data,
        st2.pos == st.pos + tokens_html(ts).len(),
        leads(st, s, ts, st2),
    decreases ts.len(),
{
    if ts.len() == 0 {
        lemma_leads_refl(st, s);
        assert(ts =~= Seq::<TokenView>::empty());
        st
    } else {
        let init = ts.drop_last();
        let last = ts.last();
        assert(tokens_html(ts) == tokens_html(init) + token_html(last));
        lemma_holds_split(s, st.pos, tokens_html(init), token_html(last));
        assert forall|i: int| 0 <= i < init.len() implies clean_token(#[trigger] init[i]) by {
            assert(init[i] == ts[i]);
        }
        let m = lemma_tokens(st, s, init);
        assert(clean_token(ts[ts.len() - 1]));
        let st2 = lemma_token(m, s, last);
        lemma_leads_trans(st, s, init, m, seq![last], st2);
        assert(init + seq![last] =~= ts);
        st2
    }
}

/// Writing a sequence of character and tag tokens out as markup (tags as
/// `<name a="v">`, `</name>` or `<name a="v"/>`) and tokenizing it again
/// gives the same tokens, then the end of input. This holds for tokens
/// that the markup writes unambiguously: characters other than `<`, `&`
/// and NUL, and tags with lower-case names that start with a letter,
/// distinct attributes whose names and values need no escaping, and no
/// self-closing flag on an end tag.
pub proof fn law_reserialize(ts: Seq<TokenView>)
    requires
        forall|i: int| 0 <= i < ts.len() ==> clean_token(#[trigger] ts[i]),
    ensures
        tokenize(tokens_html(ts)) == ts.push(TokenView::EOF),
{
    let s = tokens_html(ts);
    assert(s.subrange(0, s.len() as int) =~= s);
    let st = StateView::initial();
    let st2 = lemma_tokens(st, s, ts);
    lemma_leads_step(st2, s);
    let st3 = step(st2, s).0;
    assert(run(st3, s) =~= Seq::<TokenView>::empty());
    assert(run(st2, s) =~= seq![TokenView::EOF]);
    assert(ts + seq![TokenView::EOF] =~= ts.push(TokenView::EOF));
}

} // verus!
