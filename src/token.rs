//! The tokens that the tokenizer emits, and their mathematical views.
use vstd::prelude::*;

verus! {

/// Whether a tag opens or closes an element.
#[derive(Clone, Copy, Debug, PartialEq, Eq, Structural)]
pub enum TagKind {
    Start,
    End,
}

/// One attribute of a tag: its name (ASCII-lowercased) and its value
/// (character references already resolved).
#[derive(Clone, Debug, PartialEq, Eq)]
pub struct Attribute {
    pub name: String,
    pub value: String,
}

/// A start or end tag.
#[derive(Clone, Debug, PartialEq, Eq)]
pub struct Tag {
    pub kind: TagKind,
    pub name: String,
    pub self_closing: bool,
    pub attributes: Vec<Attribute>,
}

/// A DOCTYPE declaration.
#[derive(Clone, Debug, PartialEq, Eq)]
pub struct Doctype {
    pub name: String,
    pub public_identifier: Option<String>,
    pub system_identifier: Option<String>,
    pub force_quirks: bool,
}

/// One lexical unit of the input.
#[derive(Clone, Debug, PartialEq, Eq)]
pub enum Token {
    /// The end of the input; always the last token.
    EOF,
    Char(char),
    Tag(Tag),
    Comment(String),
    Doctype(Doctype),
}

pub struct AttributeView {
    pub name: Seq<char>,
    pub value: Seq<char>,
}

pub struct TagView {
    pub kind: TagKind,
    pub name: Seq<char>,
    pub self_closing: bool,
    pub attributes: Seq<AttributeView>,
}

pub struct DoctypeView {
    pub name: Seq<char>,
    pub public_identifier: Option<Seq<char>>,
    pub system_identifier: Option<Seq<char>>,
    pub force_quirks: bool,
}

pub enum TokenView {
    EOF,
    Char(char),
    Tag(TagView),
    Comment(Seq<char>),
    Doctype(DoctypeView),
}

pub open spec fn opt_view(o: Option<String>) -> Option<Seq<char>> {
    match o {
        Some(s) => Some(s@),
        None => None,
    }
}

impl View for Attribute {
    type V = AttributeView;

    open spec fn view(&self) -> AttributeView {
        AttributeView { name: self.name@, value: self.value@ }
    }
}

impl View for Tag {
    type V = TagView;

    open spec fn view(&self) -> TagView {
        TagView {
            kind: self.kind,
            name: self.name@,
            self_closing: self.self_closing,
            attributes: self.attributes@.map_values(|a: Attribute| a@),
        }
    }
}

impl View for Doctype {
    type V = DoctypeView;

    open spec fn view(&self) -> DoctypeView {
        DoctypeView {
            name: self.name@,
            public_identifier: opt_view(self.public_identifier),
            system_identifier: opt_view(self.system_identifier),
            force_quirks: self.force_quirks,
        }
    }
}

impl View for Token {
    type V = TokenView;

    open spec fn view(&self) -> TokenView {
        match self {
            Token::EOF => TokenView::EOF,
            Token::Char(c) => TokenView::Char(*c),
            Token::Tag(t) => TokenView::Tag(t@),
            Token::Comment(s) => TokenView::Comment(s@),
            Token::Doctype(d) => TokenView::Doctype(d@),
        }
    }
}

/// The views of a sequence of tokens.
pub open spec fn views(ts: Seq<Token>) -> Seq<TokenView> {
    ts.map_values(|t: Token| t@)
}

/// Whether some attribute in `attrs` is named `name`.
pub open spec fn has_attribute(attrs: Seq<AttributeView>, name: Seq<char>) -> bool {
    exists|i: int| 0 <= i < attrs.len() && #[trigger] attrs[i].name == name
}

/// No two attributes share a name.
pub open spec fn distinct_names(attrs: Seq<AttributeView>) -> bool {
    forall|i: int, j: int|
        0 <= i < attrs.len() && 0 <= j < attrs.len() && i != j ==> #[trigger] attrs[i].name
            != #[trigger] attrs[j].name
}

impl AttributeView {
    pub open spec fn empty() -> AttributeView {
        AttributeView { name: Seq::empty(), value: Seq::empty() }
    }
}

impl TagView {
    pub open spec fn empty(kind: TagKind) -> TagView {
        TagView { kind, name: Seq::empty(), self_closing: false, attributes: Seq::empty() }
    }

    /// The tag with `a` appended, unless an attribute of the same name is
    /// already there: the first occurrence of a name wins.
    pub open spec fn add_attribute(self, a: AttributeView) -> TagView {
        if has_attribute(self.attributes, a.name) {
            self
        } else {
            TagView { attributes: self.attributes.push(a), ..self }
        }
    }
}

impl DoctypeView {
    pub open spec fn empty() -> DoctypeView {
        DoctypeView {
            name: Seq::empty(),
            public_identifier: None,
            system_identifier: None,
            force_quirks: false,
        }
    }
}

impl Attribute {
    /// An attribute with empty name and value.
    pub fn new() -> (r: Attribute)
        ensures
            r@ == AttributeView::empty(),
    {
        Attribute { name: String::new(), value: String::new() }
    }
}

impl Tag {
    /// A tag of the given kind with an empty name and no attributes.
    pub fn new(kind: TagKind) -> (r: Tag)
        ensures
            r@ == TagView::empty(kind),
    {
        let r = Tag { kind, name: String::new(), self_closing: false, attributes: Vec::new() };
        assert(r@.attributes =~= Seq::empty());
        r
    }

    /// Adds `attribute` unless the tag already has one of that name.
    pub fn add_attribute(&mut self, attribute: Attribute)
        ensures
            final(self)@ == old(self)@.add_attribute(attribute@),
    {
        let ghost a = attribute@;
        let n = self.attributes.len();
        let mut i: usize = 0;
        while i < n
            invariant
                n == self.attributes.len(),
                i <= n,
                a == attribute@,
                *self == *old(self),
                forall|j: int| 0 <= j < i ==> self.attributes@[j].name@ != a.name,
            decreases n - i,
        {
            if self.attributes[i].name.eq(&attribute.name) {
                assert(self@.attributes[i as int].name == a.name);
                return;
            }
            i = i + 1;
        }
        assert(!has_attribute(self@.attributes, a.name));
        self.attributes.push(attribute);
        assert(self@.attributes =~= old(self)@.attributes.push(a));
    }
}

impl Doctype {
    /// A DOCTYPE with an empty name, no identifiers and quirks not forced.
    pub fn new() -> (r: Doctype)
        ensures
            r@ == DoctypeView::empty(),
    {
        Doctype {
            name: String::new(),
            public_identifier: None,
            system_identifier: None,
            force_quirks: false,
        }
    }
}

} // verus!
