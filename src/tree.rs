//! The section synchronizer on the document tree.
//!
//! The root `Doc`'s children are the siblings. A `Heading` child whose text,
//! without surrounding whitespace, equals a title delimits that title's
//! section: the children after it up to the next `Heading`. An entry is a
//! child of a section whose text holds the URL; a written entry is a
//! `Paragraph` holding one unmarked text run, the status marker followed by
//! the URL.

use vstd::prelude::*;
use vstd::string::*;
use crate::checklist::{PrStatus, entry_line, make_entry, opt_int};
use crate::document::{ContentNode, flatten};
use crate::text::{
    contains, contains_exec, chars_of, occurs_at_exec, skip_spaces, skip_spaces_exec, back_spaces,
    back_spaces_exec,
};

verus! {

/// The children of the root; a node other than `Doc` has none as a root.
pub open spec fn root_content(n: ContentNode) -> Seq<ContentNode> {
    match n {
        ContentNode::Doc { content, .. } => content@,
        _ => Seq::empty(),
    }
}

/// The text of a node, the empty text when it has none.
pub open spec fn text_or_empty(n: ContentNode) -> Seq<char> {
    match flatten(n) {
        Some(t) => t,
        None => Seq::empty(),
    }
}

/// The text of a node without surrounding whitespace.
pub open spec fn node_title(n: ContentNode) -> Seq<char> {
    let t = text_or_empty(n);
    let a = skip_spaces(t, 0);
    t.subrange(a, back_spaces(t, t.len() as int, a))
}

/// A heading node with the given title.
pub open spec fn node_titled(n: ContentNode, title: Seq<char>) -> bool {
    n is Heading && node_title(n) == title
}

/// A node whose text holds `url`.
pub open spec fn node_holds(n: ContentNode, url: Seq<char>) -> bool {
    flatten(n) matches Some(t) && contains(t, url)
}

/// The first child at or after `i` that is a heading with the given title.
pub open spec fn titled_from(cs: Seq<ContentNode>, title: Seq<char>, i: int) -> Option<int>
    decreases cs.len() - i,
{
    if i < 0 || i >= cs.len() {
        None
    } else if node_titled(cs[i], title) {
        Some(i)
    } else {
        titled_from(cs, title, i + 1)
    }
}

/// The index of the first heading child with the given title.
pub open spec fn node_section_of(cs: Seq<ContentNode>, title: Seq<char>) -> Option<int> {
    titled_from(cs, title, 0)
}

/// The first heading at or after `j`, or the number of children.
pub open spec fn node_end_from(cs: Seq<ContentNode>, j: int) -> int
    decreases cs.len() - j,
{
    if j < 0 || j >= cs.len() {
        cs.len() as int
    } else if cs[j] is Heading {
        j
    } else {
        node_end_from(cs, j + 1)
    }
}

/// Where the section of the heading at `h` ends.
pub open spec fn node_section_end(cs: Seq<ContentNode>, h: int) -> int {
    node_end_from(cs, h + 1)
}

/// The first child at or after `j`, before the next heading, whose text holds `url`.
pub open spec fn node_entry_from(cs: Seq<ContentNode>, url: Seq<char>, j: int) -> Option<int>
    decreases cs.len() - j,
{
    if j < 0 || j >= cs.len() || cs[j] is Heading {
        None
    } else if node_holds(cs[j], url) {
        Some(j)
    } else {
        node_entry_from(cs, url, j + 1)
    }
}

/// The first entry of `url` in the section of the heading at `h`.
pub open spec fn node_entry_of(cs: Seq<ContentNode>, h: int, url: Seq<char>) -> Option<int> {
    node_entry_from(cs, url, h + 1)
}

/// A paragraph that holds one unmarked text run with the given text.
pub open spec fn is_text_paragraph(n: ContentNode, t: Seq<char>) -> bool {
    &&& n matches ContentNode::Paragraph { content }
    &&& content@.len() == 1
    &&& content@[0] matches ContentNode::Text { text, marks }
    &&& text@ == t
    &&& marks@.len() == 0
}

/// A level-two heading that holds one unmarked text run with the given text.
pub open spec fn is_title_heading(n: ContentNode, t: Seq<char>) -> bool {
    &&& n matches ContentNode::Heading { level, content }
    &&& level == 2
    &&& content@.len() == 1
    &&& content@[0] matches ContentNode::Text { text, marks }
    &&& text@ == t
    &&& marks@.len() == 0
}

/// The result of an upsert into the section at `h`: the children before
/// (`old`) and after (`new`), and whether they changed.
pub open spec fn node_upserted(
    old: Seq<ContentNode>,
    new: Seq<ContentNode>,
    changed: bool,
    h: int,
    url: Seq<char>,
    s: PrStatus,
) -> bool {
    let line = entry_line(s, url);
    match node_entry_of(old, h, url) {
        Some(j) => if flatten(old[j]) == Some(line) {
            new == old && !changed
        } else {
            changed && new == old.update(j, new[j]) && is_text_paragraph(new[j], line)
        },
        None => {
            let e = node_section_end(old, h);
            changed && new == old.insert(e, new[e]) && is_text_paragraph(new[e], line)
        },
    }
}

/// When `old` is a document, `new` is one of the same version.
pub open spec fn keeps_version(old: ContentNode, new: ContentNode) -> bool {
    match old {
        ContentNode::Doc { version: v0, .. } => match new {
            ContentNode::Doc { version, .. } => version == v0,
            _ => false,
        },
        _ => true,
    }
}

fn node_is_heading(n: &ContentNode) -> (r: bool)
    ensures
        r == (*n is Heading),
{
    match n {
        ContentNode::Heading { .. } => true,
        _ => false,
    }
}

fn node_chars(n: &ContentNode) -> (r: Vec<char>)
    ensures
        r@ == text_or_empty(*n),
{
    match n.text() {
        Some(t) => chars_of(t.as_str()),
        None => Vec::new(),
    }
}

fn node_is_titled(n: &ContentNode, title: &Vec<char>) -> (r: bool)
    ensures
        r == node_titled(*n, title@),
{
    if !node_is_heading(n) {
        return false;
    }
    let v = node_chars(n);
    let a = skip_spaces_exec(&v, 0);
    let b = back_spaces_exec(&v, v.len(), a);
    if b - a != title.len() {
        return false;
    }
    occurs_at_exec(&v, title, a)
}

fn node_holds_url(n: &ContentNode, url: &Vec<char>) -> (r: bool)
    ensures
        r == node_holds(*n, url@),
{
    match n.text() {
        Some(t) => contains_exec(&chars_of(t.as_str()), url),
        None => false,
    }
}

fn titled_index(cs: &Vec<ContentNode>, title: &Vec<char>) -> (r: Option<usize>)
    ensures
        opt_int(r) == node_section_of(cs@, title@),
        r matches Some(i) ==> i < cs@.len(),
{
    let mut i: usize = 0;
    while i < cs.len()
        invariant
            i <= cs@.len(),
            titled_from(cs@, title@, i as int) == node_section_of(cs@, title@),
        decreases cs@.len() - i,
    {
        if node_is_titled(&cs[i], title) {
            return Some(i);
        }
        i += 1;
    }
    None
}

fn end_index(cs: &Vec<ContentNode>, h: usize) -> (r: usize)
    requires
        h < cs@.len(),
    ensures
        r as int == node_section_end(cs@, h as int),
        h < r <= cs@.len(),
{
    let n = cs.len();
    let mut j: usize = h + 1;
    while j < cs.len() && !node_is_heading(&cs[j])
        invariant
            h < j <= cs@.len(),
            node_end_from(cs@, j as int) == node_section_end(cs@, h as int),
        decreases cs@.len() - j,
    {
        j += 1;
    }
    j
}

fn entry_index(cs: &Vec<ContentNode>, h: usize, url: &Vec<char>) -> (r: Option<usize>)
    requires
        h < cs@.len(),
    ensures
        opt_int(r) == node_entry_of(cs@, h as int, url@),
        r matches Some(j) ==> h < j < cs@.len(),
{
    let n = cs.len();
    let mut j: usize = h + 1;
    while j < cs.len()
        invariant
            h < j <= cs@.len(),
            node_entry_from(cs@, url@, j as int) == node_entry_of(cs@, h as int, url@),
        decreases cs@.len() - j,
    {
        if node_is_heading(&cs[j]) {
            return None;
        }
        if node_holds_url(&cs[j], url) {
            return Some(j);
        }
        j += 1;
    }
    None
}

/// One unmarked text run holding `text`.
fn text_run(text: String) -> (r: Vec<ContentNode>)
    ensures
        r@.len() == 1,
        r@[0] matches ContentNode::Text { text: t, marks } && t@ == text@ && marks@.len() == 0,
{
    let mut v: Vec<ContentNode> = Vec::new();
    v.push(ContentNode::Text { text, marks: Vec::new() });
    v
}

impl ContentNode {
    /// The index of the root's first heading child whose text, without
    /// surrounding whitespace, is `title`.
    pub fn find_section(&self, title: &str) -> (r: Option<usize>)
        ensures
            opt_int(r) == node_section_of(root_content(*self), title@),
            r matches Some(i) ==> i < root_content(*self).len(),
    {
        match self {
            ContentNode::Doc { content, .. } => titled_index(content, &chars_of(title)),
            _ => None,
        }
    }

    /// Returns the index of the root's first heading titled `title`,
    /// appending a level-two heading with that title when there is none.
    pub fn find_or_create_section(&mut self, title: &str) -> (r: usize)
        requires
            *old(self) is Doc,
        ensures
            *final(self) is Doc,
            match node_section_of(root_content(*old(self)), title@) {
                Some(h) => r == h && *final(self) == *old(self),
                None => {
                    &&& r == root_content(*old(self)).len()
                    &&& root_content(*final(self)) == root_content(*old(self)).push(
                        root_content(*final(self))[r as int],
                    )
                    &&& is_title_heading(root_content(*final(self))[r as int], title@)
                    &&& *final(self) matches ContentNode::Doc { version, .. } && *old(
                        self,
                    ) matches ContentNode::Doc { version: v0, .. } && version == v0
                },
            },
    {
        match self {
            ContentNode::Doc { content, .. } => {
                match titled_index(content, &chars_of(title)) {
                    Some(h) => h,
                    None => {
                        let n = content.len();
                        let heading = ContentNode::Heading {
                            level: 2,
                            content: text_run(title.to_owned()),
                        };
                        content.push(heading);
                        n
                    },
                }
            },
            _ => 0,
        }
    }

    /// Whether the section at `index` holds a child whose text contains
    /// `url`. A missing section (`None`, or an index past the end) holds nothing.
    pub fn section_contains_url(&self, index: Option<usize>, url: &str) -> (r: bool)
        ensures
            r == (opt_int(index) matches Some(h) && 0 <= h < root_content(*self).len()
                && node_entry_of(root_content(*self), h, url@) is Some),
    {
        match self {
            ContentNode::Doc { content, .. } => match index {
                Some(h) => if h < content.len() {
                    entry_index(content, h, &chars_of(url)).is_some()
                } else {
                    false
                },
                None => false,
            },
            _ => false,
        }
    }

    /// Writes the entry of `url` with the given status into the section of
    /// the root's child at `index`: an entry whose text already is the
    /// marker and URL is left alone; another entry is replaced where it
    /// stands; without an entry one is added at the end of the section.
    /// Returns whether the document changed.
    pub fn upsert_entry(&mut self, index: usize, url: &str, status: PrStatus) -> (changed: bool)
        requires
            *old(self) is Doc,
            index < root_content(*old(self)).len(),
        ensures
            *final(self) is Doc,
            node_upserted(
                root_content(*old(self)),
                root_content(*final(self)),
                changed,
                index as int,
                url@,
                status,
            ),
            *final(self) matches ContentNode::Doc { version, .. } && *old(
                self,
            ) matches ContentNode::Doc { version: v0, .. } && version == v0,
    {
        let line = make_entry(status, url);
        match self {
            ContentNode::Doc { content, .. } => {
                match entry_index(content, index, &chars_of(url)) {
                    Some(j) => {
                        let same = match content[j].text() {
                            Some(t) => t == line,
                            None => false,
                        };
                        if same {
                            false
                        } else {
                            let entry = ContentNode::Paragraph { content: text_run(line) };
                            content.set(j, entry);
                            true
                        }
                    },
                    None => {
                        let e = end_index(content, index);
                        let entry = ContentNode::Paragraph { content: text_run(line) };
                        content.insert(e, entry);
                        true
                    },
                }
            },
            _ => false,
        }
    }

    /// Removes the first entry of `url` from the section at `index`. Returns
    /// whether one was removed; a missing section is left alone.
    pub fn remove_entry(&mut self, index: Option<usize>, url: &str) -> (changed: bool)
        ensures
            (*old(self) is Doc) == (*final(self) is Doc),
            keeps_version(*old(self), *final(self)),
            match opt_int(index) {
                Some(h) if 0 <= h < root_content(*old(self)).len() => match node_entry_of(
                    root_content(*old(self)),
                    h,
                    url@,
                ) {
                    Some(j) => changed && root_content(*final(self)) == root_content(
                        *old(self),
                    ).remove(j),
                    None => !changed && *final(self) == *old(self),
                },
                _ => !changed && *final(self) == *old(self),
            },
    {
        match self {
            ContentNode::Doc { content, .. } => match index {
                Some(h) => {
                    if h >= content.len() {
                        return false;
                    }
                    match entry_index(content, h, &chars_of(url)) {
                        Some(j) => {
                            content.remove(j);
                            true
                        },
                        None => false,
                    }
                },
                None => false,
            },
            _ => false,
        }
    }
}

} // verus!
