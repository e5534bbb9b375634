//! The data that the document tree's nodes carry.
use vstd::prelude::*;

verus! {

/// The kinds of node in the document tree.
#[derive(Clone, Copy, Debug, PartialEq, Eq, Structural)]
pub enum NodeType {
    DocumentNode,
}

/// What the document node holds: the document's URL.
#[derive(Debug)]
pub struct DocumentData {
    url: String,
}

impl DocumentData {
    pub closed spec fn url_view(&self) -> Seq<char> {
        self.url@
    }

    pub fn new(url: String) -> (r: DocumentData)
        ensures
            r.url_view() == url@,
    {
        DocumentData { url }
    }

    /// The document's URL.
    pub fn url(&self) -> (r: &String)
        ensures
            r@ == self.url_view(),
    {
        &self.url
    }
}

} // verus!
