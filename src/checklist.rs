//! The checklist document in its line form, and the section synchronizer.
//!
//! A document is a sequence of lines. A line whose first character is `#` is a
//! heading; its title is the text after the leading `#` marks with surrounding
//! whitespace removed. A section is the run of lines after a heading up to the
//! next heading or the end. An entry is a line of a section that holds a pull
//! request's URL, written as a status marker followed by the URL.
//!
//! When several headings carry the same title, only the first is addressed.
//! URLs are matched as substrings, so `.../pull/1` also matches a line that
//! holds `.../pull/12`.

use vstd::prelude::*;
use vstd::string::*;
use crate::text::{
    contains, contains_exec, chars_of, occurs_at_exec, push_char, skip_spaces,
    skip_spaces_exec, back_spaces, back_spaces_exec, string_of_range,
};

verus! {

/// Title of the section that `push_pr` fills.
pub const SECTION_TITLE: &'static str = "Pull Requests";

/// The state of a pull request, as an entry's marker shows it.
#[derive(Clone, Copy, Debug, PartialEq, Eq, Structural)]
pub enum PrStatus {
    Open,
    Merged,
    Closed,
}

/// The marker that starts an entry of the given status.
pub open spec fn marker(s: PrStatus) -> Seq<char> {
    match s {
        PrStatus::Open => seq!['-', ' '],
        PrStatus::Merged => seq!['+', ' '],
        PrStatus::Closed => seq!['x', ' '],
    }
}

/// The entry line for `url` with status `s`.
pub open spec fn entry_line(s: PrStatus, url: Seq<char>) -> Seq<char> {
    marker(s) + url
}

// ---------------------------------------------------------------------------
// Parsing and serialising

/// The pieces of `s` between line feeds; there is always at least one.
pub open spec fn split_lines(s: Seq<char>) -> Seq<Seq<char>>
    decreases s.len(),
{
    if s.len() == 0 {
        seq![Seq::<char>::empty()]
    } else if s.last() == '\n' {
        split_lines(s.drop_last()).push(Seq::<char>::empty())
    } else {
        let p = split_lines(s.drop_last());
        p.update(p.len() - 1, p.last().push(s.last()))
    }
}

/// The lines of a document text: none for the empty text, else the pieces
/// between line feeds.
pub open spec fn parse_lines(s: Seq<char>) -> Seq<Seq<char>> {
    if s.len() == 0 {
        Seq::empty()
    } else {
        split_lines(s)
    }
}

/// The text of a list of lines: the lines joined by line feeds.
pub open spec fn join_lines(lines: Seq<Seq<char>>) -> Seq<char>
    decreases lines.len(),
{
    if lines.len() == 0 {
        Seq::empty()
    } else if lines.len() == 1 {
        lines[0]
    } else {
        join_lines(lines.drop_last()) + seq!['\n'] + lines.last()
    }
}

proof fn lemma_split_nonempty(s: Seq<char>)
    ensures
        split_lines(s).len() >= 1,
    decreases s.len(),
{
    if s.len() > 0 {
        lemma_split_nonempty(s.drop_last());
    }
}

proof fn lemma_join_split(s: Seq<char>)
    ensures
        join_lines(split_lines(s)) == s,
    decreases s.len(),
{
    if s.len() == 0 {
        assert(join_lines(split_lines(s)) =~= s);
    } else {
        let t = s.drop_last();
        lemma_join_split(t);
        lemma_split_nonempty(t);
        let p = split_lines(t);
        if s.last() == '\n' {
            let q = p.push(Seq::<char>::empty());
            assert(q.drop_last() =~= p);
            assert(join_lines(q) =~= s);
        } else {
            let q = p.update(p.len() - 1, p.last().push(s.last()));
            if p.len() == 1 {
                assert(join_lines(q) =~= s);
            } else {
                assert(q.drop_last() =~= p.drop_last());
                assert(join_lines(p) == join_lines(p.drop_last()) + seq!['\n'] + p.last());
                assert(s =~= t.push(s.last()));
                assert(join_lines(q) =~= s);
            }
        }
    }
}

/// Joining the lines of a text gives the text back.
pub proof fn lemma_join_parse(s: Seq<char>)
    ensures
        join_lines(parse_lines(s)) == s,
{
    if s.len() > 0 {
        lemma_join_split(s);
    }
}

// ---------------------------------------------------------------------------
// Headings and sections

/// A line whose first character is `#`.
pub open spec fn is_heading(l: Seq<char>) -> bool {
    l.len() > 0 && l[0] == '#'
}

/// The first position at or after `i` that does not hold `#`.
pub open spec fn skip_marks(l: Seq<char>, i: int) -> int
    decreases l.len() - i,
{
    if 0 <= i < l.len() && l[i] == '#' {
        skip_marks(l, i + 1)
    } else {
        i
    }
}

/// Start of a heading's title: after the `#` marks and the whitespace that follows.
pub open spec fn title_start(l: Seq<char>) -> int {
    skip_spaces(l, skip_marks(l, 0))
}

/// End of a heading's title: before the trailing whitespace.
pub open spec fn title_end(l: Seq<char>) -> int {
    back_spaces(l, l.len() as int, title_start(l))
}

/// The title of a heading line.
pub open spec fn title_of(l: Seq<char>) -> Seq<char> {
    l.subrange(title_start(l), title_end(l))
}

/// A heading line with the given title.
pub open spec fn is_titled(l: Seq<char>, title: Seq<char>) -> bool {
    is_heading(l) && title_of(l) == title
}

/// The first line at or after `i` that is a heading with the given title.
pub open spec fn first_titled_from(lines: Seq<Seq<char>>, title: Seq<char>, i: int) -> Option<
    int,
>
    decreases lines.len() - i,
{
    if i < 0 || i >= lines.len() {
        None
    } else if is_titled(lines[i], title) {
        Some(i)
    } else {
        first_titled_from(lines, title, i + 1)
    }
}

/// The index of the first heading with the given title.
pub open spec fn section_of(lines: Seq<Seq<char>>, title: Seq<char>) -> Option<int> {
    first_titled_from(lines, title, 0)
}

/// The first heading at or after `j`, or the number of lines.
pub open spec fn section_end_from(lines: Seq<Seq<char>>, j: int) -> int
    decreases lines.len() - j,
{
    if j < 0 || j >= lines.len() {
        lines.len() as int
    } else if is_heading(lines[j]) {
        j
    } else {
        section_end_from(lines, j + 1)
    }
}

/// Where the section of the heading at `h` ends: at the next heading or at the end.
pub open spec fn section_end(lines: Seq<Seq<char>>, h: int) -> int {
    section_end_from(lines, h + 1)
}

/// The first line at or after `j`, before the next heading, that holds `url`.
pub open spec fn entry_from(lines: Seq<Seq<char>>, url: Seq<char>, j: int) -> Option<int>
    decreases lines.len() - j,
{
    if j < 0 || j >= lines.len() || is_heading(lines[j]) {
        None
    } else if contains(lines[j], url) {
        Some(j)
    } else {
        entry_from(lines, url, j + 1)
    }
}

/// The first entry of `url` in the section of the heading at `h`.
pub open spec fn entry_of(lines: Seq<Seq<char>>, h: int, url: Seq<char>) -> Option<int> {
    entry_from(lines, url, h + 1)
}

// ---------------------------------------------------------------------------
// The operations, as functions on line sequences

/// A valid section index, or none.
pub open spec fn section_at(lines: Seq<Seq<char>>, index: Option<int>) -> Option<int> {
    match index {
        Some(h) => if 0 <= h < lines.len() {
            Some(h)
        } else {
            None
        },
        None => None,
    }
}

/// Whether the section at `index` holds an entry of `url`.
pub open spec fn holds_url(lines: Seq<Seq<char>>, index: Option<int>, url: Seq<char>) -> bool {
    match section_at(lines, index) {
        Some(h) => entry_of(lines, h, url) is Some,
        None => false,
    }
}

/// The lines after an upsert into the section at `h`, and whether they changed.
pub open spec fn upserted(lines: Seq<Seq<char>>, h: int, url: Seq<char>, s: PrStatus) -> (
    Seq<Seq<char>>,
    bool,
) {
    let line = entry_line(s, url);
    match entry_of(lines, h, url) {
        Some(j) => if lines[j] == line {
            (lines, false)
        } else {
            (lines.update(j, line), true)
        },
        None => (lines.insert(section_end(lines, h), line), true),
    }
}

/// The lines after removing the first entry of `url` from the section at
/// `index`, and whether one was removed.
pub open spec fn removed(lines: Seq<Seq<char>>, index: Option<int>, url: Seq<char>) -> (
    Seq<Seq<char>>,
    bool,
) {
    match section_at(lines, index) {
        Some(h) => match entry_of(lines, h, url) {
            Some(j) => (lines.remove(j), true),
            None => (lines, false),
        },
        None => (lines, false),
    }
}

/// The lines after adding an open entry of `url` to the section titled
/// `SECTION_TITLE` unless one is there, and whether they changed.
pub open spec fn pushed(lines: Seq<Seq<char>>, url: Seq<char>) -> (Seq<Seq<char>>, bool) {
    pushed_as(lines, url, PrStatus::Open)
}

/// The lines after upserting the entry of `url` with status `s` into the
/// section titled `SECTION_TITLE`, and whether they changed; without that
/// section nothing changes.
pub open spec fn pushed_as(lines: Seq<Seq<char>>, url: Seq<char>, s: PrStatus) -> (
    Seq<Seq<char>>,
    bool,
) {
    match section_of(lines, SECTION_TITLE@) {
        Some(h) => upserted(lines, h, url, s),
        None => (lines, false),
    }
}

/// The heading line that `find_or_create_section` adds.
pub open spec fn new_heading(title: Seq<char>) -> Seq<char> {
    seq!['#', '#', ' '] + title
}

/// The lines after making sure a section with the given title exists, and its index.
pub open spec fn with_section(lines: Seq<Seq<char>>, title: Seq<char>) -> (Seq<Seq<char>>, int) {
    match section_of(lines, title) {
        Some(h) => (lines, h),
        None => (lines.push(new_heading(title)), lines.len() as int),
    }
}

/// An optional index as a mathematical integer.
pub open spec fn opt_int(r: Option<usize>) -> Option<int> {
    match r {
        Some(i) => Some(i as int),
        None => None,
    }
}

// ---------------------------------------------------------------------------
// Exec helpers on single lines

fn line_is_heading(l: &Vec<char>) -> (r: bool)
    ensures
        r == is_heading(l@),
{
    l.len() > 0 && l[0] == '#'
}

fn skip_marks_exec(l: &Vec<char>) -> (r: usize)
    ensures
        r as int == skip_marks(l@, 0),
        r <= l@.len(),
{
    let mut j: usize = 0;
    while j < l.len() && l[j] == '#'
        invariant
            j <= l@.len(),
            skip_marks(l@, j as int) == skip_marks(l@, 0),
        decreases l@.len() - j,
    {
        j += 1;
    }
    j
}

fn line_is_titled(l: &Vec<char>, title: &Vec<char>) -> (r: bool)
    ensures
        r == is_titled(l@, title@),
{
    if !line_is_heading(l) {
        return false;
    }
    let a = skip_spaces_exec(l, skip_marks_exec(l));
    let b = back_spaces_exec(l, l.len(), a);
    if b - a != title.len() {
        return false;
    }
    occurs_at_exec(l, title, a)
}

/// The entry line for `url` with status `s`.
pub(crate) fn make_entry(s: PrStatus, url: &str) -> (r: String)
    ensures
        r@ == entry_line(s, url@),
{
    let mut line = String::new();
    match s {
        PrStatus::Open => push_char(&mut line, '-'),
        PrStatus::Merged => push_char(&mut line, '+'),
        PrStatus::Closed => push_char(&mut line, 'x'),
    }
    push_char(&mut line, ' ');
    line.append(url);
    assert(line@ =~= entry_line(s, url@));
    line
}

// ---------------------------------------------------------------------------
// The document

/// A checklist document held as its lines.
pub struct ChecklistManipulator {
    checklist: Vec<String>,
}

impl View for ChecklistManipulator {
    type V = Seq<Seq<char>>;

    closed spec fn view(&self) -> Seq<Seq<char>> {
        self.checklist@.map_values(|l: String| l@)
    }
}

impl ChecklistManipulator {
    /// Parses a document text into its lines (split at each line feed; the
    /// empty text has no lines).
    pub fn new(checklist: &str) -> (r: Self)
        ensures
            r@ == parse_lines(checklist@),
    {
        let v = chars_of(checklist);
        let mut lines: Vec<String> = Vec::new();
        if v.len() == 0 {
            let r = Self { checklist: lines };
            assert(r@ =~= parse_lines(checklist@));
            return r;
        }
        let mut start: usize = 0;
        let mut i: usize = 0;
        assert(v@.take(0) =~= Seq::<char>::empty());
        while i < v.len()
            invariant
                start <= i <= v@.len(),
                lines@.map_values(|l: String| l@) =~= split_lines(v@.take(i as int)).drop_last(),
                v@.subrange(start as int, i as int) =~= split_lines(v@.take(i as int)).last(),
            decreases v@.len() - i,
        {
            let ghost t = v@.take(i as int);
            let ghost t1 = v@.take(i + 1);
            proof {
                lemma_split_nonempty(t);
                assert(t1.drop_last() =~= t);
            }
            let ghost p = split_lines(t);
            if v[i] == '\n' {
                let line = string_of_range(&v, start, i);
                let ghost before = lines@.map_values(|l: String| l@);
                lines.push(line);
                start = i + 1;
                assert(split_lines(t1) == p.push(Seq::<char>::empty()));
                assert(p =~= p.drop_last().push(p.last()));
                assert(lines@.map_values(|l: String| l@) =~= before.push(line@));
            } else {
                assert(split_lines(t1) == p.update(p.len() - 1, p.last().push(v@[i as int])));
                assert(split_lines(t1).drop_last() =~= p.drop_last());
                assert(v@.subrange(start as int, i + 1) =~= v@.subrange(start as int, i as int).push(
                    v@[i as int],
                ));
            }
            i += 1;
        }
        lines.push(string_of_range(&v, start, v.len()));
        let r = Self { checklist: lines };
        proof {
            assert(v@.take(v@.len() as int) =~= v@);
            lemma_split_nonempty(v@);
            let sp = split_lines(v@);
            assert(sp =~= sp.drop_last().push(sp.last()));
            assert(r@ =~= split_lines(v@));
        }
        r
    }

    /// The document text: the lines joined by line feeds.
    pub fn to_string(&self) -> (r: String)
        ensures
            r@ == join_lines(self@),
    {
        let ghost lines = self@;
        let mut out = String::new();
        let mut i: usize = 0;
        while i < self.checklist.len()
            invariant
                i <= self.checklist@.len(),
                lines == self@,
                out@ =~= join_lines(lines.take(i as int)),
            decreases self.checklist@.len() - i,
        {
            assert(lines.take(i + 1).drop_last() =~= lines.take(i as int));
            if i > 0 {
                push_char(&mut out, '\n');
            }
            out.append(self.checklist[i].as_str());
            i += 1;
        }
        assert(lines.take(i as int) =~= lines);
        out
    }

    /// The characters of line `j`.
    fn line_chars(&self, j: usize) -> (r: Vec<char>)
        requires
            j < self@.len(),
        ensures
            r@ == self@[j as int],
    {
        chars_of(self.checklist[j].as_str())
    }

    /// The index of the first heading whose title is `title`.
    pub fn find_section(&self, title: &str) -> (r: Option<usize>)
        ensures
            opt_int(r) == section_of(self@, title@),
            r matches Some(i) ==> i < self@.len(),
    {
        let t = chars_of(title);
        let mut i: usize = 0;
        while i < self.checklist.len()
            invariant
                i <= self@.len(),
                self@.len() == self.checklist@.len(),
                t@ == title@,
                first_titled_from(self@, title@, i as int) == section_of(self@, title@),
            decreases self@.len() - i,
        {
            if line_is_titled(&self.line_chars(i), &t) {
                return Some(i);
            }
            i += 1;
        }
        None
    }

    /// The index where the section of the heading at `h` ends.
    fn section_end_index(&self, h: usize) -> (r: usize)
        requires
            h < self@.len(),
        ensures
            r as int == section_end(self@, h as int),
            h < r <= self@.len(),
    {
        let n = self.checklist.len();
        assert(self@.len() == n);
        let mut j: usize = h + 1;
        while j < self.checklist.len() && !line_is_heading(&self.line_chars(j))
            invariant
                h < j <= self@.len(),
                self@.len() == self.checklist@.len(),
                section_end_from(self@, j as int) == section_end(self@, h as int),
            decreases self@.len() - j,
        {
            j += 1;
        }
        j
    }

    /// The index of the first entry of `url` in the section of the heading at `h`.
    fn entry_index(&self, h: usize, url: &Vec<char>) -> (r: Option<usize>)
        requires
            h < self@.len(),
        ensures
            opt_int(r) == entry_of(self@, h as int, url@),
            r matches Some(j) ==> h < j < self@.len(),
    {
        let n = self.checklist.len();
        assert(self@.len() == n);
        let mut j: usize = h + 1;
        while j < self.checklist.len()
            invariant
                h < j <= self@.len(),
                self@.len() == self.checklist@.len(),
                entry_from(self@, url@, j as int) == entry_of(self@, h as int, url@),
            decreases self@.len() - j,
        {
            let l = self.line_chars(j);
            if line_is_heading(&l) {
                return None;
            }
            if contains_exec(&l, url) {
                return Some(j);
            }
            j += 1;
        }
        None
    }

    /// Whether the section at `index` holds a line that contains `url`. A
    /// missing section (`None`, or an index past the end) holds nothing.
    pub fn section_contains_url(&self, index: Option<usize>, url: &str) -> (r: bool)
        ensures
            r == holds_url(self@, opt_int(index), url@),
    {
        match index {
            Some(h) => if h < self.checklist.len() {
                self.entry_index(h, &chars_of(url)).is_some()
            } else {
                false
            },
            None => false,
        }
    }

    /// Returns the index of the first heading titled `title`, appending a
    /// level-two heading with that title when there is none.
    pub fn find_or_create_section(&mut self, title: &str) -> (r: usize)
        ensures
            (final(self)@, r as int) == with_section(old(self)@, title@),
    {
        match self.find_section(title) {
            Some(h) => h,
            None => {
                let n = self.checklist.len();
                let mut line = String::new();
                push_char(&mut line, '#');
                push_char(&mut line, '#');
                push_char(&mut line, ' ');
                line.append(title);
                assert(line@ =~= new_heading(title@));
                self.checklist.push(line);
                assert(self@ =~= old(self)@.push(new_heading(title@)));
                n
            },
        }
    }

    /// Writes the entry of `url` with the given status into the section of the
    /// heading at `index`: an existing entry is replaced where it stands, else
    /// the entry is added at the end of the section. Returns whether the
    /// document changed.
    pub fn upsert_entry(&mut self, index: usize, url: &str, status: PrStatus) -> (changed: bool)
        requires
            index < old(self)@.len(),
        ensures
            (final(self)@, changed) == upserted(old(self)@, index as int, url@, status),
    {
        let line = make_entry(status, url);
        match self.entry_index(index, &chars_of(url)) {
            Some(j) => {
                if self.checklist[j] == line {
                    false
                } else {
                    self.checklist.set(j, line);
                    assert(self@ =~= old(self)@.update(j as int, entry_line(status, url@)));
                    true
                }
            },
            None => {
                let e = self.section_end_index(index);
                self.checklist.insert(e, line);
                assert(self@ =~= old(self)@.insert(e as int, entry_line(status, url@)));
                true
            },
        }
    }

    /// Removes the first entry of `url` from the section at `index`. Returns
    /// whether one was removed; a missing section is left alone.
    pub fn remove_entry(&mut self, index: Option<usize>, url: &str) -> (changed: bool)
        ensures
            (final(self)@, changed) == removed(old(self)@, opt_int(index), url@),
    {
        match index {
            Some(h) => {
                if h >= self.checklist.len() {
                    return false;
                }
                match self.entry_index(h, &chars_of(url)) {
                    Some(j) => {
                        self.checklist.remove(j);
                        assert(self@ =~= old(self)@.remove(j as int));
                        true
                    },
                    None => false,
                }
            },
            None => false,
        }
    }

    /// Upserts the entry of `pr_url` with the given status into the section
    /// titled `SECTION_TITLE`, as `upsert_entry` does. Returns whether the
    /// document changed; without the section nothing changes.
    pub fn upsert_pr(&mut self, pr_url: &str, status: PrStatus) -> (changed: bool)
        ensures
            (final(self)@, changed) == pushed_as(old(self)@, pr_url@, status),
    {
        match self.find_section(SECTION_TITLE) {
            Some(h) => self.upsert_entry(h, pr_url, status),
            None => false,
        }
    }

    /// Upserts an open entry of `pr_url` into the section titled
    /// `SECTION_TITLE`: a missing entry is added at the end of the section,
    /// an entry with another marker is replaced where it stands. Returns
    /// whether the document changed; without the section nothing changes.
    pub fn push_pr(&mut self, pr_url: &str) -> (changed: bool)
        ensures
            (final(self)@, changed) == pushed(old(self)@, pr_url@),
    {
        self.upsert_pr(pr_url, PrStatus::Open)
    }
}

} // verus!
