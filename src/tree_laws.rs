//! Laws of the section synchronizer on the document tree, proved over the
//! relations that the tree operations' own contracts state.

use vstd::prelude::*;
use crate::checklist::{PrStatus, entry_line};
use crate::document::{ContentNode, flatten, flatten_children};
use crate::laws::lemma_entry_line_shape;
use crate::text::contains;
use crate::tree::{
    is_text_paragraph, node_entry_from, node_entry_of, node_end_from, node_holds,
    node_section_end, node_upserted,
};

verus! {

proof fn lemma_paragraph_text(n: ContentNode, t: Seq<char>)
    requires
        is_text_paragraph(n, t),
    ensures
        flatten(n) == Some(t),
        !(n is Heading),
{
    if let ContentNode::Paragraph { content } = n {
        assert(flatten_children(content, 0) is None);
        assert(flatten(content[0]) == Some(t));
    }
}

proof fn lemma_written_entry(n: ContentNode, s: PrStatus, url: Seq<char>)
    requires
        is_text_paragraph(n, entry_line(s, url)),
    ensures
        flatten(n) == Some(entry_line(s, url)),
        node_holds(n, url),
        !(n is Heading),
{
    lemma_paragraph_text(n, entry_line(s, url));
    lemma_entry_line_shape(s, url);
}

proof fn lemma_node_entry_range(cs: Seq<ContentNode>, url: Seq<char>, k: int)
    ensures
        node_entry_from(cs, url, k) matches Some(j) ==> 0 <= k <= j < cs.len() && !(cs[j] is Heading)
            && node_holds(cs[j], url),
    decreases cs.len() - k,
{
    if 0 <= k < cs.len() && !(cs[k] is Heading) && !node_holds(cs[k], url) {
        lemma_node_entry_range(cs, url, k + 1);
    }
}

proof fn lemma_node_end_range(cs: Seq<ContentNode>, k: int)
    requires
        0 <= k,
    ensures
        k <= cs.len() ==> k <= node_end_from(cs, k) <= cs.len(),
        node_end_from(cs, k) < cs.len() ==> cs[node_end_from(cs, k)] is Heading,
        forall|i: int| k <= i < node_end_from(cs, k) ==> !(#[trigger] cs[i] is Heading),
    decreases cs.len() - k,
{
    if k < cs.len() && !(cs[k] is Heading) {
        lemma_node_end_range(cs, k + 1);
    }
}

proof fn lemma_node_entry_in_section(cs: Seq<ContentNode>, url: Seq<char>, k: int, j: int)
    requires
        0 <= k,
        node_entry_from(cs, url, k) == Some(j),
    ensures
        j < node_end_from(cs, k),
    decreases cs.len() - k,
{
    if k < j {
        lemma_node_entry_in_section(cs, url, k + 1, j);
    } else {
        lemma_node_end_range(cs, k + 1);
    }
}

proof fn lemma_node_entry_after_update(
    cs: Seq<ContentNode>,
    url: Seq<char>,
    k: int,
    j: int,
    n: ContentNode,
)
    requires
        0 <= k <= j < cs.len(),
        node_entry_from(cs, url, k) == Some(j),
        !(n is Heading),
        node_holds(n, url),
    ensures
        node_entry_from(cs.update(j, n), url, k) == Some(j),
    decreases j - k,
{
    if k < j {
        lemma_node_entry_after_update(cs, url, k + 1, j, n);
    }
}

proof fn lemma_node_entry_after_insert(
    cs: Seq<ContentNode>,
    url: Seq<char>,
    k: int,
    e: int,
    n: ContentNode,
)
    requires
        0 <= k <= e <= cs.len(),
        node_entry_from(cs, url, k) is None,
        node_end_from(cs, k) == e,
        !(n is Heading),
        node_holds(n, url),
    ensures
        node_entry_from(cs.insert(e, n), url, k) == Some(e),
    decreases e - k,
{
    if k < e {
        lemma_node_entry_after_insert(cs, url, k + 1, e, n);
    }
}

proof fn lemma_node_end_same_headings(a: Seq<ContentNode>, b: Seq<ContentNode>, k: int)
    requires
        a.len() == b.len(),
        forall|i: int| 0 <= i < a.len() ==> (#[trigger] a[i] is Heading) == (b[i] is Heading),
    ensures
        node_end_from(a, k) == node_end_from(b, k),
    decreases a.len() - k,
{
    if 0 <= k < a.len() && !(a[k] is Heading) {
        lemma_node_end_same_headings(a, b, k + 1);
    }
}

proof fn lemma_node_end_after_insert(cs: Seq<ContentNode>, k: int, e: int, n: ContentNode)
    requires
        0 <= k <= e <= cs.len(),
        node_end_from(cs, k) == e,
        !(n is Heading),
    ensures
        node_end_from(cs.insert(e, n), k) == e + 1,
    decreases e - k,
{
    let c1 = cs.insert(e, n);
    if k < e {
        lemma_node_end_after_insert(cs, k + 1, e, n);
        assert(c1[k] == cs[k]);
    } else {
        lemma_node_end_range(cs, k);
        assert(c1[e] == n);
        if e < cs.len() {
            assert(c1[e + 1] == cs[e]);
        }
        assert(node_end_from(c1, e + 1) == e + 1);
    }
}

proof fn lemma_node_shifted_end(cs: Seq<ContentNode>, c1: Seq<ContentNode>, k: int)
    requires
        0 <= k <= c1.len(),
        c1.len() + 1 == cs.len(),
        forall|i: int| k <= i < c1.len() ==> c1[i] == #[trigger] cs[i + 1],
    ensures
        node_end_from(c1, k) == node_end_from(cs, k + 1) - 1,
    decreases c1.len() - k,
{
    if k < c1.len() {
        assert(c1[k] == cs[k + 1]);
        if !(c1[k] is Heading) {
            lemma_node_shifted_end(cs, c1, k + 1);
        }
    }
}

proof fn lemma_node_end_after_remove(cs: Seq<ContentNode>, k: int, j: int, e: int)
    requires
        0 <= k <= j < e <= cs.len(),
        node_end_from(cs, k) == e,
    ensures
        node_end_from(cs.remove(j), k) == e - 1,
    decreases e - k,
{
    let c1 = cs.remove(j);
    lemma_node_end_range(cs, k);
    if k < j {
        lemma_node_end_after_remove(cs, k + 1, j, e);
    } else {
        assert forall|i: int| j <= i < c1.len() implies c1[i] == cs[i + 1] by {}
        lemma_node_shifted_end(cs, c1, j);
    }
}

/// After an upsert, the section's first entry of `url` is the written entry.
proof fn lemma_node_upsert_places(
    old: Seq<ContentNode>,
    new: Seq<ContentNode>,
    changed: bool,
    h: int,
    url: Seq<char>,
    s: PrStatus,
) -> (j: int)
    requires
        0 <= h < old.len(),
        node_upserted(old, new, changed, h, url, s),
    ensures
        node_entry_of(new, h, url) == Some(j),
        flatten(new[j]) == Some(entry_line(s, url)),
        h < j < new.len(),
{
    lemma_node_entry_range(old, url, h + 1);
    match node_entry_of(old, h, url) {
        Some(j) => {
            if flatten(old[j]) != Some(entry_line(s, url)) {
                lemma_written_entry(new[j], s, url);
                lemma_node_entry_after_update(old, url, h + 1, j, new[j]);
            }
            j
        },
        None => {
            let e = node_section_end(old, h);
            lemma_node_end_range(old, h + 1);
            lemma_written_entry(new[e], s, url);
            lemma_node_entry_after_insert(old, url, h + 1, e, new[e]);
            e
        },
    }
}

/// Upserting the same entry twice into a document tree gives the document
/// of upserting it once, and the second upsert reports no change.
pub proof fn lemma_tree_upsert_idempotent(
    d0: Seq<ContentNode>,
    d1: Seq<ContentNode>,
    d2: Seq<ContentNode>,
    c1: bool,
    c2: bool,
    h: int,
    url: Seq<char>,
    s: PrStatus,
)
    requires
        0 <= h < d0.len(),
        node_upserted(d0, d1, c1, h, url, s),
        node_upserted(d1, d2, c2, h, url, s),
    ensures
        d2 == d1,
        !c2,
{
    lemma_node_upsert_places(d0, d1, c1, h, url, s);
}

/// Upserting an entry as open and then as merged replaces it where it stands
/// and reports a change; a further upsert as merged changes nothing.
pub proof fn lemma_tree_status_transition(
    d0: Seq<ContentNode>,
    d1: Seq<ContentNode>,
    d2: Seq<ContentNode>,
    d3: Seq<ContentNode>,
    c1: bool,
    c2: bool,
    c3: bool,
    h: int,
    url: Seq<char>,
)
    requires
        0 <= h < d0.len(),
        node_upserted(d0, d1, c1, h, url, PrStatus::Open),
        node_upserted(d1, d2, c2, h, url, PrStatus::Merged),
        node_upserted(d2, d3, c3, h, url, PrStatus::Merged),
    ensures
        c2,
        !c3,
        d3 == d2,
        exists|j: int|
            0 <= j < d1.len() && flatten(#[trigger] d1[j]) == Some(entry_line(PrStatus::Open, url))
                && d2 == d1.update(j, d2[j]) && is_text_paragraph(
                d2[j],
                entry_line(PrStatus::Merged, url),
            ),
{
    let j = lemma_node_upsert_places(d0, d1, c1, h, url, PrStatus::Open);
    assert(entry_line(PrStatus::Open, url)[0] != entry_line(PrStatus::Merged, url)[0]);
    lemma_node_upsert_places(d1, d2, c2, h, url, PrStatus::Merged);
}

/// An upsert into a document tree leaves the heading and every child before
/// it as they were, and every child from the end of the section on.
pub proof fn lemma_tree_upsert_keeps_outside(
    old: Seq<ContentNode>,
    new: Seq<ContentNode>,
    changed: bool,
    h: int,
    url: Seq<char>,
    s: PrStatus,
)
    requires
        0 <= h < old.len(),
        node_upserted(old, new, changed, h, url, s),
    ensures
        new.subrange(0, h + 1) == old.subrange(0, h + 1),
        new.subrange(node_section_end(new, h), new.len() as int) == old.subrange(
            node_section_end(old, h),
            old.len() as int,
        ),
{
    lemma_node_entry_range(old, url, h + 1);
    lemma_node_end_range(old, h + 1);
    let e = node_section_end(old, h);
    match node_entry_of(old, h, url) {
        Some(j) => {
            lemma_node_entry_in_section(old, url, h + 1, j);
            if flatten(old[j]) != Some(entry_line(s, url)) {
                lemma_written_entry(new[j], s, url);
                assert forall|i: int| 0 <= i < new.len() implies (#[trigger] new[i] is Heading)
                    == (old[i] is Heading) by {}
                lemma_node_end_same_headings(new, old, h + 1);
            }
            assert(new.subrange(0, h + 1) =~= old.subrange(0, h + 1));
            assert(new.subrange(e, new.len() as int) =~= old.subrange(e, old.len() as int));
        },
        None => {
            lemma_written_entry(new[e], s, url);
            lemma_node_end_after_insert(old, h + 1, e, new[e]);
            assert(new.subrange(0, h + 1) =~= old.subrange(0, h + 1));
            assert(new.subrange(e + 1, new.len() as int) =~= old.subrange(e, old.len() as int));
        },
    }
}

/// Removing an entry from a document tree leaves the heading and every child
/// before it as they were, and every child from the end of the section on.
pub proof fn lemma_tree_remove_keeps_outside(cs: Seq<ContentNode>, h: int, url: Seq<char>)
    requires
        0 <= h < cs.len(),
        node_entry_of(cs, h, url) is Some,
    ensures
        ({
            let c1 = cs.remove(node_entry_of(cs, h, url)->0);
            &&& c1.subrange(0, h + 1) == cs.subrange(0, h + 1)
            &&& c1.subrange(node_section_end(c1, h), c1.len() as int) == cs.subrange(
                node_section_end(cs, h),
                cs.len() as int,
            )
        }),
{
    let j = node_entry_of(cs, h, url)->0;
    let c1 = cs.remove(j);
    let e = node_section_end(cs, h);
    lemma_node_entry_range(cs, url, h + 1);
    lemma_node_end_range(cs, h + 1);
    lemma_node_entry_in_section(cs, url, h + 1, j);
    lemma_node_end_after_remove(cs, h + 1, j, e);
    assert(c1.subrange(0, h + 1) =~= cs.subrange(0, h + 1));
    assert(c1.subrange(e - 1, c1.len() as int) =~= cs.subrange(e, cs.len() as int));
}

} // verus!
