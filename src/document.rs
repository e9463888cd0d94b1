//! The rich-text tree of an issue's checklist field, and flattening it to text.

use vstd::prelude::*;
use vstd::string::*;
use crate::text::push_char;

verus! {

broadcast use vstd::std_specs::vec::group_vec_axioms;

/// A formatting mark on a text run; it does not change the tree's shape.
#[derive(Clone, Debug, PartialEq, Eq)]
pub enum Mark {
    Link { href: String },
    Strong,
    Em,
    Code,
}

/// A node of the document tree. Each node owns its children.
#[derive(Debug, PartialEq, Eq)]
pub enum ContentNode {
    Doc { content: Vec<ContentNode>, version: i32 },
    Heading { level: u8, content: Vec<ContentNode> },
    Paragraph { content: Vec<ContentNode> },
    Text { text: String, marks: Vec<Mark> },
    HardBreak,
}

/// Adds the text of one more child to what the earlier children gave.
pub open spec fn concat_text(acc: Option<Seq<char>>, piece: Option<Seq<char>>) -> Option<
    Seq<char>,
> {
    match piece {
        None => acc,
        Some(t) => match acc {
            None => Some(t),
            Some(a) => Some(a + t),
        },
    }
}

/// The text of a node: a text run's own text, a line feed for a hard break,
/// and for the other nodes the texts of their children joined with no
/// separator, or none when no child has text.
pub open spec fn flatten(n: ContentNode) -> Option<Seq<char>>
    decreases n, 0int,
{
    match n {
        ContentNode::Text { text, .. } => Some(text@),
        ContentNode::HardBreak => Some(seq!['\n']),
        ContentNode::Doc { content, .. } => flatten_children(content, content.len() as int),
        ContentNode::Heading { content, .. } => flatten_children(content, content.len() as int),
        ContentNode::Paragraph { content } => flatten_children(content, content.len() as int),
    }
}

/// The text of the first `k` children.
pub open spec fn flatten_children(content: Vec<ContentNode>, k: int) -> Option<Seq<char>>
    decreases content, k,
{
    if k <= 0 || k > content.len() {
        None
    } else {
        concat_text(flatten_children(content, k - 1), flatten(content[k - 1]))
    }
}

/// The characters of an optional string.
pub open spec fn opt_string_view(r: Option<String>) -> Option<Seq<char>> {
    match r {
        Some(s) => Some(s@),
        None => None,
    }
}

/// A document that holds one paragraph that holds one unmarked text run.
pub open spec fn is_paragraph_doc(n: ContentNode, text: Seq<char>) -> bool {
    &&& n matches ContentNode::Doc { content, version }
    &&& version == 1
    &&& content@.len() == 1
    &&& content@[0] matches ContentNode::Paragraph { content: inner }
    &&& inner@.len() == 1
    &&& inner@[0] matches ContentNode::Text { text: t, marks }
    &&& t@ == text
    &&& marks@.len() == 0
}

fn children_text(content: &Vec<ContentNode>) -> (r: Option<String>)
    ensures
        opt_string_view(r) == flatten_children(*content, content@.len() as int),
    decreases content, 1int,
{
    let mut acc: Option<String> = None;
    let mut i: usize = 0;
    while i < content.len()
        invariant
            i <= content@.len(),
            opt_string_view(acc) == flatten_children(*content, i as int),
        decreases content@.len() - i,
    {
        let piece = content[i].text();
        acc = match piece {
            None => acc,
            Some(t) => match acc {
                None => Some(t),
                Some(a) => {
                    let mut a = a;
                    a.append(t.as_str());
                    Some(a)
                },
            },
        };
        i += 1;
    }
    acc
}

impl ContentNode {
    /// The document form of a checklist field: one paragraph holding `text`.
    pub fn new_doc_paragraph_text(text: String) -> (r: Self)
        ensures
            is_paragraph_doc(r, text@),
            flatten(r) == Some(text@),
    {
        let run = ContentNode::Text { text, marks: Vec::new() };
        let mut inner: Vec<ContentNode> = Vec::new();
        inner.push(run);
        let para = ContentNode::Paragraph { content: inner };
        let mut outer: Vec<ContentNode> = Vec::new();
        outer.push(para);
        let r = ContentNode::Doc { content: outer, version: 1 };
        proof {
            assert(flatten_children(inner, 0) is None);
            assert(inner[0] == run);
            assert(flatten(run) == Some(text@));
            assert(flatten_children(inner, 1) == Some(text@));
            assert(flatten_children(outer, 0) is None);
            assert(outer[0] == para);
            assert(flatten(para) == Some(text@));
            assert(flatten_children(outer, 1) == Some(text@));
        }
        r
    }

    /// The text of this node, as `flatten` gives it.
    pub fn text(&self) -> (r: Option<String>)
        ensures
            opt_string_view(r) == flatten(*self),
        decreases self, 0int,
    {
        match self {
            ContentNode::Text { text, .. } => Some(text.clone()),
            ContentNode::HardBreak => {
                let mut s = String::new();
                push_char(&mut s, '\n');
                Some(s)
            },
            ContentNode::Doc { content, .. } => children_text(content),
            ContentNode::Heading { content, .. } => children_text(content),
            ContentNode::Paragraph { content } => children_text(content),
        }
    }
}

/// The fields of an issue that this library reads.
pub struct JiraFields {
    pub checklist: ContentNode,
}

/// An issue of the tracker, with its key.
pub struct JiraIssue {
    pub key: String,
    pub fields: JiraFields,
}

} // verus!
