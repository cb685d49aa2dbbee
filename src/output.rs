//! What a scan reports: counts, the exit code, and the blocks shown for dirty
//! repositories, at each verbosity and in each format.
use vstd::prelude::*;
use crate::scan::{file_name, file_name_of, opt_text, status_views, texts, RepoStatus, StatusView};
use crate::text::{is_blank, is_blank_text, string_of, chars_of};

verus! {

/// How the result is written.
#[derive(Debug, Clone, Copy, PartialEq, Eq, Structural)]
pub enum OutputFormat {
    /// Lines for a person to read.
    Human,
    /// One JSON document.
    Json,
}

/// How much is written, from nothing to everything.
#[derive(Debug, Clone, Copy, PartialEq, Eq, Structural)]
pub enum Verbosity {
    /// Nothing: only the exit code tells.
    Quiet,
    /// The counts.
    Summary,
    /// A header, each dirty repository's changes, and the counts.
    Verbose,
}

impl Verbosity {
    pub open spec fn rank(self) -> int {
        match self {
            Verbosity::Quiet => 0,
            Verbosity::Summary => 1,
            Verbosity::Verbose => 2,
        }
    }

    /// The level's place in the order `Quiet < Summary < Verbose`.
    pub fn level(&self) -> (r: u8)
        ensures
            r == self.rank(),
    {
        match self {
            Verbosity::Quiet => 0,
            Verbosity::Summary => 1,
            Verbosity::Verbose => 2,
        }
    }

    /// The level that the `--quiet` and `--verbose` flags ask for; quiet wins.
    pub fn from_flags(quiet: bool, verbose: bool) -> (r: Verbosity)
        ensures
            quiet ==> r == Verbosity::Quiet,
            !quiet && verbose ==> r == Verbosity::Verbose,
            !quiet && !verbose ==> r == Verbosity::Summary,
    {
        if quiet {
            Verbosity::Quiet
        } else if verbose {
            Verbosity::Verbose
        } else {
            Verbosity::Summary
        }
    }
}

impl PartialOrd for Verbosity {
    fn partial_cmp(&self, other: &Verbosity) -> (r: Option<core::cmp::Ordering>) {
        let a = self.level();
        let b = other.level();
        if a < b {
            Some(core::cmp::Ordering::Less)
        } else if a == b {
            Some(core::cmp::Ordering::Equal)
        } else {
            Some(core::cmp::Ordering::Greater)
        }
    }
}

impl vstd::std_specs::cmp::PartialOrdSpecImpl for Verbosity {
    open spec fn obeys_partial_cmp_spec() -> bool {
        true
    }

    open spec fn partial_cmp_spec(&self, other: &Verbosity) -> Option<core::cmp::Ordering> {
        if self.rank() < other.rank() {
            Some(core::cmp::Ordering::Less)
        } else if self.rank() == other.rank() {
            Some(core::cmp::Ordering::Equal)
        } else {
            Some(core::cmp::Ordering::Greater)
        }
    }
}

/// How many of the repositories are dirty.
pub open spec fn dirty_count(s: Seq<RepoStatus>) -> nat
    decreases s.len(),
{
    if s.len() == 0 {
        0
    } else {
        dirty_count(s.drop_last()) + if s.last() is Dirty {
            1nat
        } else {
            0nat
        }
    }
}

/// Fewer repositories are dirty than there are repositories.
pub proof fn lemma_dirty_count_bounded(s: Seq<RepoStatus>)
    ensures
        dirty_count(s) <= s.len(),
    decreases s.len(),
{
    if s.len() > 0 {
        lemma_dirty_count_bounded(s.drop_last());
    }
}

/// How many of the states are dirty.
pub open spec fn dirty_views(v: Seq<StatusView>) -> nat
    decreases v.len(),
{
    if v.len() == 0 {
        0
    } else {
        dirty_views(v.drop_last()) + if v.last() is Dirty {
            1nat
        } else {
            0nat
        }
    }
}

/// Counting dirty repositories or their states comes to the same.
pub proof fn lemma_dirty_count_views(s: Seq<RepoStatus>)
    ensures
        dirty_count(s) == dirty_views(status_views(s)),
    decreases s.len(),
{
    if s.len() > 0 {
        lemma_dirty_count_views(s.drop_last());
        assert(status_views(s.drop_last()) =~= status_views(s).drop_last());
    }
}

/// Counts the dirty repositories.
pub fn count_dirty(statuses: &Vec<RepoStatus>) -> (r: usize)
    ensures
        r == dirty_count(statuses@),
{
    let mut n: usize = 0;
    let mut i: usize = 0;
    while i < statuses.len()
        invariant
            i <= statuses.len(),
            n == dirty_count(statuses@.take(i as int)),
            n <= i,
        decreases statuses.len() - i,
    {
        assert(statuses@.take(i + 1).drop_last() =~= statuses@.take(i as int));
        if statuses[i].is_dirty() {
            n = n + 1;
        }
        i = i + 1;
    }
    assert(statuses@.take(statuses.len() as int) =~= statuses@);
    n
}

/// The counts of a scan.
#[derive(Debug, Clone, Copy, PartialEq, Eq, Structural)]
pub struct Summary {
    pub total: usize,
    pub dirty: usize,
    pub clean: usize,
}

/// Counts the repositories, the dirty ones and the clean ones.
pub fn summarize(statuses: &Vec<RepoStatus>) -> (r: Summary)
    ensures
        r.total == statuses.len(),
        r.dirty == dirty_count(statuses@),
        r.clean == r.total - r.dirty,
        r.clean + r.dirty == r.total,
{
    let dirty = count_dirty(statuses);
    proof {
        lemma_dirty_count_bounded(statuses@);
    }
    Summary { total: statuses.len(), dirty, clean: statuses.len() - dirty }
}

/// The document written in the JSON format: the counts and every repository.
pub struct JsonOutput {
    pub total: usize,
    pub dirty: usize,
    pub clean: usize,
    pub repositories: Vec<RepoStatus>,
}

impl JsonOutput {
    /// The document for these repositories.
    pub fn new(statuses: Vec<RepoStatus>) -> (r: JsonOutput)
        ensures
            r.total == statuses.len(),
            r.dirty == dirty_count(statuses@),
            r.clean == r.total - r.dirty,
            r.repositories@ == statuses@,
    {
        let s = summarize(&statuses);
        JsonOutput { total: s.total, dirty: s.dirty, clean: s.clean, repositories: statuses }
    }
}

/// The number of dirty repositories, at most 255.
pub open spec fn exit_code_of(dirty: nat) -> int {
    if dirty > 255 {
        255
    } else {
        dirty as int
    }
}

/// The exit code: the number of dirty repositories, at most 255.
pub fn exit_code(dirty: usize) -> (r: i32)
    ensures
        r == exit_code_of(dirty as nat),
{
    if dirty > 255 {
        255
    } else {
        dirty as i32
    }
}

/// The name a repository is shown under: the last component of its path.
pub open spec fn repo_name(path: Seq<char>) -> Seq<char> {
    match file_name_of(path) {
        Some(n) => n,
        None => seq!['u', 'n', 'k', 'n', 'o', 'w', 'n'],
    }
}

/// The name a repository is shown under.
pub fn get_repo_name(path: &str) -> (r: String)
    ensures
        r@ == repo_name(path@),
{
    name_or_unknown(file_name(path))
}

/// The shown name, given the last component of the path if it has one.
pub fn name_or_unknown(name: Option<String>) -> (r: String)
    ensures
        r@ == match opt_text(name) {
            Some(n) => n,
            None => seq!['u', 'n', 'k', 'n', 'o', 'w', 'n'],
        },
{
    match name {
        Some(n) => n,
        None => {
            let s = String::from_str("unknown");
            proof {
                reveal_strlit("unknown");
                assert(s@ =~= seq!['u', 'n', 'k', 'n', 'o', 'w', 'n']);
            }
            s
        },
    }
}

/// The pieces that `str::lines` cuts a text into, each still with its `\n`
/// if it has one: every `\n` ends a piece, and a text that ends without one
/// ends with its last piece.
pub open spec fn pieces(s: Seq<char>) -> Seq<Seq<char>>
    decreases s.len(),
{
    if s.len() == 0 {
        Seq::empty()
    } else {
        let p = pieces(s.drop_last());
        if p.len() > 0 && p.last().len() > 0 && p.last().last() != '\n' {
            p.update(p.len() - 1, p.last().push(s.last()))
        } else {
            p.push(seq![s.last()])
        }
    }
}

/// A piece without its line ending: a `\n`, or a `\r\n`.
pub open spec fn line_of(p: Seq<char>) -> Seq<char> {
    if p.len() > 0 && p.last() == '\n' {
        let a = p.drop_last();
        if a.len() > 0 && a.last() == '\r' {
            a.drop_last()
        } else {
            a
        }
    } else {
        p
    }
}

pub open spec fn shown_line(p: Seq<char>) -> Option<Seq<char>> {
    if is_blank(line_of(p)) {
        None
    } else {
        Some(line_of(p))
    }
}

/// The lines of a text that are shown: all but the blank ones, in order.
pub open spec fn shown_lines(s: Seq<char>) -> Seq<Seq<char>> {
    pieces(s).filter_map(|p: Seq<char>| shown_line(p))
}

/// The lines of a dirty repository's changes that the verbose listing shows.
pub fn change_lines(changes: &str) -> (r: Vec<String>)
    ensures
        texts(r@) == shown_lines(changes@),
{
    let v = chars_of(changes);
    let n = v.len();
    let mut out: Vec<String> = Vec::new();
    let mut start: usize = 0;
    let mut i: usize = 0;
    let ghost mut done: Seq<Seq<char>> = Seq::empty();
    let ghost f = |p: Seq<char>| shown_line(p);
    while i < n
        invariant
            start <= i <= n == v.len(),
            f == (|p: Seq<char>| shown_line(p)),
            pieces(v@.take(i as int)) == if start < i {
                done.push(v@.subrange(start as int, i as int))
            } else {
                done
            },
            start < i ==> v@[i - 1] != '\n',
            forall|k: int| 0 <= k < done.len() ==> #[trigger] done[k].len() > 0 && done[k].last() == '\n',
            texts(out@) == done.filter_map(f),
        decreases n - i,
    {
        proof {
            let t = v@.take(i + 1);
            assert(t.drop_last() =~= v@.take(i as int));
            assert(t.last() == v@[i as int]);
            if start < i {
                assert(v@.subrange(start as int, i as int).push(v@[i as int]) =~= v@.subrange(start as int, i + 1));
                assert(done.push(v@.subrange(start as int, i as int)).update(done.len() as int, v@.subrange(start as int, i + 1)) =~= done.push(v@.subrange(start as int, i + 1)));
            } else {
                assert(seq![v@[i as int]] =~= v@.subrange(start as int, i + 1));
            }
            assert(pieces(t) == done.push(v@.subrange(start as int, i + 1)));
        }
        if v[i] == '\n' {
            let line_end = if i > start && v[i - 1] == '\r' {
                i - 1
            } else {
                i
            };
            let line = string_of(&v, start, line_end);
            let ghost piece = v@.subrange(start as int, i + 1);
            proof {
                assert(piece.drop_last() =~= v@.subrange(start as int, i as int));
                if i > start {
                    assert(piece.drop_last().drop_last() =~= v@.subrange(start as int, i - 1));
                }
                assert(line@ == line_of(piece));
            }
            let ghost before = out@;
            let blank = is_blank_text(line.as_str());
            if !blank {
                out.push(line);
                proof {
                    assert(texts(before.push(out@.last())) =~= texts(before).push(out@.last()@));
                }
            }
            proof {
                assert(done.push(piece).drop_last() =~= done);
                done = done.push(piece);
            }
            start = i + 1;
        }
        i = i + 1;
    }
    proof {
        assert(v@.take(n as int) =~= v@);
    }
    if start < n {
        let line = string_of(&v, start, n);
        let ghost piece = v@.subrange(start as int, n as int);
        proof {
            assert(line@ == line_of(piece));
            assert(done.push(piece).drop_last() =~= done);
        }
        let ghost before = out@;
        if !is_blank_text(line.as_str()) {
            out.push(line);
            proof {
                assert(texts(before.push(out@.last())) =~= texts(before).push(out@.last()@));
            }
        }
    }
    out
}

} // verus!
