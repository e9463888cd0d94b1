//! Laws of the section synchronizer, proved over the spec functions that the
//! operations' own contracts use.

use vstd::prelude::*;
use crate::text::{contains, occurs_at};
use crate::checklist::{
    PrStatus, SECTION_TITLE, marker, entry_line, is_heading, entry_from, entry_of,
    section_end_from, section_end, section_of, parse_lines, join_lines, lemma_join_parse,
    upserted, removed, pushed, pushed_as, holds_url, first_titled_from,
};

verus! {

pub(crate) proof fn lemma_entry_line_shape(s: PrStatus, url: Seq<char>)
    ensures
        !is_heading(entry_line(s, url)),
        contains(entry_line(s, url), url),
{
    let l = entry_line(s, url);
    assert(l[0] == marker(s)[0]);
    assert(l.subrange(2, 2 + url.len() as int) =~= url);
    assert(occurs_at(l, url, 2));
}

proof fn lemma_entry_range(lines: Seq<Seq<char>>, url: Seq<char>, k: int)
    ensures
        entry_from(lines, url, k) matches Some(j) ==> 0 <= k <= j < lines.len() && !is_heading(
            lines[j],
        ) && contains(lines[j], url),
    decreases lines.len() - k,
{
    if 0 <= k < lines.len() && !is_heading(lines[k]) && !contains(lines[k], url) {
        lemma_entry_range(lines, url, k + 1);
    }
}

proof fn lemma_end_range(lines: Seq<Seq<char>>, k: int)
    requires
        0 <= k,
    ensures
        k <= lines.len() ==> k <= section_end_from(lines, k) <= lines.len(),
        section_end_from(lines, k) < lines.len() ==> is_heading(
            lines[section_end_from(lines, k)],
        ),
        forall|i: int| k <= i < section_end_from(lines, k) ==> !is_heading(#[trigger] lines[i]),
    decreases lines.len() - k,
{
    if k < lines.len() && !is_heading(lines[k]) {
        lemma_end_range(lines, k + 1);
    }
}

/// Replacing a line by a non-heading keeps the first entry that stands there.
proof fn lemma_entry_after_update(
    lines: Seq<Seq<char>>,
    url: Seq<char>,
    k: int,
    j: int,
    line: Seq<char>,
)
    requires
        0 <= k <= j < lines.len(),
        entry_from(lines, url, k) == Some(j),
        !is_heading(line),
        contains(line, url),
    ensures
        entry_from(lines.update(j, line), url, k) == Some(j),
    decreases j - k,
{
    if k < j {
        lemma_entry_after_update(lines, url, k + 1, j, line);
    }
}

/// An entry inserted where a section without one ends is found there.
proof fn lemma_entry_after_insert(
    lines: Seq<Seq<char>>,
    url: Seq<char>,
    k: int,
    e: int,
    line: Seq<char>,
)
    requires
        0 <= k <= e <= lines.len(),
        entry_from(lines, url, k) is None,
        section_end_from(lines, k) == e,
        !is_heading(line),
        contains(line, url),
    ensures
        entry_from(lines.insert(e, line), url, k) == Some(e),
    decreases e - k,
{
    if k < e {
        lemma_entry_after_insert(lines, url, k + 1, e, line);
    }
}

/// Lines with headings in the same places have the same section ends.
proof fn lemma_end_same_headings(a: Seq<Seq<char>>, b: Seq<Seq<char>>, k: int)
    requires
        a.len() == b.len(),
        forall|i: int| 0 <= i < a.len() ==> is_heading(#[trigger] a[i]) == is_heading(b[i]),
    ensures
        section_end_from(a, k) == section_end_from(b, k),
    decreases a.len() - k,
{
    if 0 <= k < a.len() && !is_heading(a[k]) {
        lemma_end_same_headings(a, b, k + 1);
    }
}

/// Inserting a non-heading before a section's end moves the end one line on.
proof fn lemma_end_after_insert(lines: Seq<Seq<char>>, k: int, e: int, line: Seq<char>)
    requires
        0 <= k <= e <= lines.len(),
        section_end_from(lines, k) == e,
        !is_heading(line),
    ensures
        section_end_from(lines.insert(e, line), k) == e + 1,
    decreases e - k,
{
    let l1 = lines.insert(e, line);
    if k < e {
        lemma_end_after_insert(lines, k + 1, e, line);
        assert(l1[k] == lines[k]);
    } else {
        lemma_end_range(lines, k);
        assert(l1[e] == line);
        if e < lines.len() {
            assert(l1[e + 1] == lines[e]);
        }
        assert(section_end_from(l1, e + 1) == e + 1);
    }
}

/// Removing a line before a section's end moves the end one line back.
proof fn lemma_end_after_remove(lines: Seq<Seq<char>>, k: int, j: int, e: int)
    requires
        0 <= k <= j < e <= lines.len(),
        section_end_from(lines, k) == e,
    ensures
        section_end_from(lines.remove(j), k) == e - 1,
    decreases e - k,
{
    let l1 = lines.remove(j);
    lemma_end_range(lines, k);
    if k < j {
        lemma_end_after_remove(lines, k + 1, j, e);
    } else {
        lemma_end_range(lines, j + 1);
        lemma_end_range(l1, j);
        assert forall|i: int| j <= i < l1.len() implies l1[i] == lines[i + 1] by {}
        if e < lines.len() {
            assert(l1[e - 1] == lines[e]);
        }
        lemma_shifted_end(lines, l1, j);
    }
}

proof fn lemma_shifted_end(lines: Seq<Seq<char>>, l1: Seq<Seq<char>>, k: int)
    requires
        0 <= k <= l1.len(),
        l1.len() + 1 == lines.len(),
        forall|i: int| k <= i < l1.len() ==> l1[i] == #[trigger] lines[i + 1],
    ensures
        section_end_from(l1, k) == section_end_from(lines, k + 1) - 1,
    decreases l1.len() - k,
{
    if k < l1.len() {
        assert(l1[k] == lines[k + 1]);
        if !is_heading(l1[k]) {
            lemma_shifted_end(lines, l1, k + 1);
        }
    }
}

/// After an upsert, the section's first entry of `url` is the requested line.
proof fn lemma_upsert_places(lines: Seq<Seq<char>>, h: int, url: Seq<char>, s: PrStatus) -> (j:
    int)
    requires
        0 <= h < lines.len(),
    ensures
        entry_of(upserted(lines, h, url, s).0, h, url) == Some(j),
        upserted(lines, h, url, s).0[j] == entry_line(s, url),
        h < j < upserted(lines, h, url, s).0.len(),
{
    let line = entry_line(s, url);
    lemma_entry_line_shape(s, url);
    lemma_entry_range(lines, url, h + 1);
    match entry_of(lines, h, url) {
        Some(j) => {
            if lines[j] != line {
                lemma_entry_after_update(lines, url, h + 1, j, line);
            }
            j
        },
        None => {
            let e = section_end(lines, h);
            lemma_end_range(lines, h + 1);
            lemma_entry_after_insert(lines, url, h + 1, e, line);
            e
        },
    }
}

/// Upserting the same entry twice gives the document of upserting it once, and
/// the second upsert reports no change.
pub proof fn lemma_upsert_idempotent(lines: Seq<Seq<char>>, h: int, url: Seq<char>, s: PrStatus)
    requires
        0 <= h < lines.len(),
    ensures
        upserted(upserted(lines, h, url, s).0, h, url, s) == (upserted(lines, h, url, s).0, false),
{
    lemma_upsert_places(lines, h, url, s);
}

/// Upserting an entry as open and then as merged changes its marker from
/// `- ` to `+ ` where it stands, and reports a change; a further upsert as
/// merged changes nothing. The first upsert reports a change unless the
/// section's first line holding the URL already was the open entry.
pub proof fn lemma_status_transition(lines: Seq<Seq<char>>, h: int, url: Seq<char>)
    requires
        0 <= h < lines.len(),
    ensures
        ({
            let (l1, c1) = upserted(lines, h, url, PrStatus::Open);
            let (l2, c2) = upserted(l1, h, url, PrStatus::Merged);
            let (l3, c3) = upserted(l2, h, url, PrStatus::Merged);
            &&& c1 == !(entry_of(lines, h, url) matches Some(j) && lines[j] == entry_line(
                PrStatus::Open,
                url,
            ))
            &&& c2
            &&& !c3
            &&& l3 == l2
            &&& exists|j: int|
                0 <= j < l1.len() && #[trigger] l1[j] == entry_line(PrStatus::Open, url) && l2
                    == l1.update(j, entry_line(PrStatus::Merged, url))
        }),
{
    let l1 = upserted(lines, h, url, PrStatus::Open).0;
    let j = lemma_upsert_places(lines, h, url, PrStatus::Open);
    assert(entry_line(PrStatus::Open, url)[0] != entry_line(PrStatus::Merged, url)[0]);
    lemma_upsert_places(l1, h, url, PrStatus::Merged);
    let l2 = upserted(l1, h, url, PrStatus::Merged).0;
    assert(l1[j] == entry_line(PrStatus::Open, url));
    assert(l2 == l1.update(j, entry_line(PrStatus::Merged, url)));
}

/// An upsert leaves the heading and every line before it as they were, and
/// every line from the end of the section on.
pub proof fn lemma_upsert_keeps_outside(
    lines: Seq<Seq<char>>,
    h: int,
    url: Seq<char>,
    s: PrStatus,
)
    requires
        0 <= h < lines.len(),
    ensures
        ({
            let l1 = upserted(lines, h, url, s).0;
            &&& l1.subrange(0, h + 1) == lines.subrange(0, h + 1)
            &&& l1.subrange(section_end(l1, h), l1.len() as int) == lines.subrange(
                section_end(lines, h),
                lines.len() as int,
            )
        }),
{
    let line = entry_line(s, url);
    let l1 = upserted(lines, h, url, s).0;
    lemma_entry_line_shape(s, url);
    lemma_entry_range(lines, url, h + 1);
    lemma_end_range(lines, h + 1);
    let e = section_end(lines, h);
    match entry_of(lines, h, url) {
        Some(j) => {
            if lines[j] != line {
                assert forall|i: int| 0 <= i < l1.len() implies is_heading(#[trigger] l1[i])
                    == is_heading(lines[i]) by {}
                lemma_end_same_headings(l1, lines, h + 1);
            }
            assert(l1.subrange(0, h + 1) =~= lines.subrange(0, h + 1));
            lemma_end_range(lines, h + 1);
            assert(j < e) by {
                if j >= e {
                    lemma_entry_in_section(lines, url, h + 1, j);
                }
            }
            assert(l1.subrange(section_end(l1, h), l1.len() as int) =~= lines.subrange(
                e,
                lines.len() as int,
            ));
        },
        None => {
            lemma_end_after_insert(lines, h + 1, e, line);
            assert(l1.subrange(0, h + 1) =~= lines.subrange(0, h + 1));
            assert(l1.subrange(e + 1, l1.len() as int) =~= lines.subrange(e, lines.len() as int));
        },
    }
}

/// An entry found from `k` lies before the section end seen from `k`.
proof fn lemma_entry_in_section(lines: Seq<Seq<char>>, url: Seq<char>, k: int, j: int)
    requires
        0 <= k,
        entry_from(lines, url, k) == Some(j),
    ensures
        j < section_end_from(lines, k),
    decreases lines.len() - k,
{
    if k < j {
        lemma_entry_in_section(lines, url, k + 1, j);
    } else {
        lemma_end_range(lines, k + 1);
    }
}

/// A removal leaves the heading and every line before it as they were, and
/// every line from the end of the section on.
pub proof fn lemma_remove_keeps_outside(lines: Seq<Seq<char>>, h: int, url: Seq<char>)
    requires
        0 <= h < lines.len(),
    ensures
        ({
            let l1 = removed(lines, Some(h), url).0;
            &&& l1.subrange(0, h + 1) == lines.subrange(0, h + 1)
            &&& l1.subrange(section_end(l1, h), l1.len() as int) == lines.subrange(
                section_end(lines, h),
                lines.len() as int,
            )
        }),
{
    let l1 = removed(lines, Some(h), url).0;
    lemma_entry_range(lines, url, h + 1);
    lemma_end_range(lines, h + 1);
    let e = section_end(lines, h);
    if let Some(j) = entry_of(lines, h, url) {
        lemma_entry_in_section(lines, url, h + 1, j);
        lemma_end_after_remove(lines, h + 1, j, e);
        assert(l1.subrange(0, h + 1) =~= lines.subrange(0, h + 1));
        assert(l1.subrange(e - 1, l1.len() as int) =~= lines.subrange(e, lines.len() as int));
    }
}

/// Upserting into the target section leaves every line outside it as it was.
pub proof fn lemma_push_keeps_outside(lines: Seq<Seq<char>>, url: Seq<char>, s: PrStatus)
    ensures
        section_of(lines, SECTION_TITLE@) matches Some(h) ==> ({
            let l1 = pushed_as(lines, url, s).0;
            &&& l1.subrange(0, h + 1) == lines.subrange(0, h + 1)
            &&& l1.subrange(section_end(l1, h), l1.len() as int) == lines.subrange(
                section_end(lines, h),
                lines.len() as int,
            )
        }),
        section_of(lines, SECTION_TITLE@) is None ==> pushed_as(lines, url, s) == (lines, false),
{
    if let Some(h) = section_of(lines, SECTION_TITLE@) {
        lemma_title_range(lines, SECTION_TITLE@, 0);
        lemma_upsert_keeps_outside(lines, h, url, s);
    }
}

/// Lines that agree up to a titled heading find that heading first too.
proof fn lemma_titled_prefix(
    a: Seq<Seq<char>>,
    b: Seq<Seq<char>>,
    title: Seq<char>,
    i: int,
    h: int,
)
    requires
        0 <= i <= h < a.len(),
        h < b.len(),
        first_titled_from(a, title, i) == Some(h),
        forall|k: int| 0 <= k <= h ==> #[trigger] b[k] == a[k],
    ensures
        first_titled_from(b, title, i) == Some(h),
    decreases h - i,
{
    assert(b[i] == a[i]);
    if i < h {
        assert(!crate::checklist::is_titled(a[i], title));
        lemma_titled_prefix(a, b, title, i + 1, h);
        assert(first_titled_from(b, title, i) == first_titled_from(b, title, i + 1));
    } else {
        lemma_title_range(a, title, i);
        assert(crate::checklist::is_titled(b[i], title));
    }
}

/// An upsert into the target section keeps that section's heading where it was.
proof fn lemma_push_keeps_section(lines: Seq<Seq<char>>, url: Seq<char>, s: PrStatus)
    requires
        section_of(lines, SECTION_TITLE@) is Some,
    ensures
        section_of(pushed_as(lines, url, s).0, SECTION_TITLE@) == section_of(
            lines,
            SECTION_TITLE@,
        ),
{
    let h = section_of(lines, SECTION_TITLE@)->0;
    lemma_title_range(lines, SECTION_TITLE@, 0);
    lemma_upsert_keeps_outside(lines, h, url, s);
    let l1 = pushed_as(lines, url, s).0;
    lemma_upsert_places(lines, h, url, s);
    assert forall|k: int| 0 <= k <= h implies #[trigger] l1[k] == lines[k] by {
        assert(l1.subrange(0, h + 1)[k] == lines.subrange(0, h + 1)[k]);
    }
    lemma_titled_prefix(lines, l1, SECTION_TITLE@, 0, h);
}

/// Upserting a pull request's entry twice gives the document of upserting
/// it once, and the second upsert reports no change.
pub proof fn lemma_push_idempotent(lines: Seq<Seq<char>>, url: Seq<char>, s: PrStatus)
    ensures
        pushed_as(pushed_as(lines, url, s).0, url, s) == (pushed_as(lines, url, s).0, false),
{
    if let Some(h) = section_of(lines, SECTION_TITLE@) {
        lemma_title_range(lines, SECTION_TITLE@, 0);
        lemma_push_keeps_section(lines, url, s);
        lemma_upsert_idempotent(lines, h, url, s);
    }
}

/// In the target section, upserting a pull request as open and then as
/// merged changes its marker from `- ` to `+ ` where it stands, and reports a
/// change; a further upsert as merged changes nothing.
pub proof fn lemma_push_status_transition(lines: Seq<Seq<char>>, url: Seq<char>)
    requires
        section_of(lines, SECTION_TITLE@) is Some,
    ensures
        ({
            let (l1, c1) = pushed_as(lines, url, PrStatus::Open);
            let (l2, c2) = pushed_as(l1, url, PrStatus::Merged);
            let (l3, c3) = pushed_as(l2, url, PrStatus::Merged);
            &&& c2
            &&& !c3
            &&& l3 == l2
            &&& exists|j: int|
                0 <= j < l1.len() && #[trigger] l1[j] == entry_line(PrStatus::Open, url) && l2
                    == l1.update(j, entry_line(PrStatus::Merged, url))
        }),
{
    let h = section_of(lines, SECTION_TITLE@)->0;
    lemma_title_range(lines, SECTION_TITLE@, 0);
    let l1 = pushed_as(lines, url, PrStatus::Open).0;
    lemma_push_keeps_section(lines, url, PrStatus::Open);
    let l2 = pushed_as(l1, url, PrStatus::Merged).0;
    lemma_push_keeps_section(l1, url, PrStatus::Merged);
    lemma_status_transition(lines, h, url);
}

proof fn lemma_title_range(lines: Seq<Seq<char>>, title: Seq<char>, i: int)
    ensures
        first_titled_from(lines, title, i) matches Some(h) ==> 0 <= i <= h < lines.len()
            && crate::checklist::is_titled(lines[h], title),
    decreases lines.len() - i,
{
    if 0 <= i < lines.len() {
        lemma_title_range(lines, title, i + 1);
    }
}

/// Parsing the text of parsed lines and serialising again gives the same text.
pub proof fn lemma_round_trip(raw: Seq<char>)
    ensures
        join_lines(parse_lines(join_lines(parse_lines(raw)))) == join_lines(parse_lines(raw)),
{
    lemma_join_parse(raw);
}

/// Without a section titled `SECTION_TITLE`, removing an entry from it and
/// asking whether it holds a URL both answer `false` and change nothing.
pub proof fn lemma_missing_section(lines: Seq<Seq<char>>, url: Seq<char>)
    requires
        section_of(lines, SECTION_TITLE@) is None,
    ensures
        removed(lines, section_of(lines, SECTION_TITLE@), url) == (lines, false),
        !holds_url(lines, section_of(lines, SECTION_TITLE@), url),
        pushed(lines, url) == (lines, false),
{
}

} // verus!
