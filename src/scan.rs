//! Finding repositories under a root and classifying each one as clean or dirty.
use vstd::prelude::*;
use crate::error::Error;
use crate::text::{is_blank, is_blank_text, trim_text, trimmed};

verus! {

/// Smallest accepted scan depth.
pub const MIN_DEPTH: usize = 1;

/// Largest accepted scan depth.
pub const MAX_DEPTH_LIMIT: usize = 100;

/// The name of the directory that marks a repository root.
pub open spec fn git_dir_name() -> Seq<char> {
    seq!['.', 'g', 'i', 't']
}

/// The state of one repository.
#[derive(Debug, Clone)]
pub enum RepoStatus {
    /// No uncommitted changes.
    Clean { path: String, branch: Option<String> },
    /// Uncommitted changes, as `git status --porcelain` lists them.
    Dirty { path: String, changes: String, branch: Option<String> },
}

/// A repository's state as plain text.
pub enum StatusView {
    Clean { path: Seq<char>, branch: Option<Seq<char>> },
    Dirty { path: Seq<char>, changes: Seq<char>, branch: Option<Seq<char>> },
}

pub open spec fn opt_text(o: Option<String>) -> Option<Seq<char>> {
    match o {
        Some(s) => Some(s@),
        None => None,
    }
}

impl View for RepoStatus {
    type V = StatusView;

    open spec fn view(&self) -> StatusView {
        match self {
            RepoStatus::Clean { path, branch } => StatusView::Clean {
                path: path@,
                branch: opt_text(*branch),
            },
            RepoStatus::Dirty { path, changes, branch } => StatusView::Dirty {
                path: path@,
                changes: changes@,
                branch: opt_text(*branch),
            },
        }
    }
}

impl RepoStatus {
    pub open spec fn spec_path(&self) -> Seq<char> {
        match self {
            RepoStatus::Clean { path, .. } => path@,
            RepoStatus::Dirty { path, .. } => path@,
        }
    }

    /// The repository's directory.
    pub fn path(&self) -> (r: &str)
        ensures
            r@ == self.spec_path(),
    {
        match self {
            RepoStatus::Clean { path, .. } => path.as_str(),
            RepoStatus::Dirty { path, .. } => path.as_str(),
        }
    }

    /// Whether the repository has uncommitted changes.
    pub fn is_dirty(&self) -> (r: bool)
        ensures
            r == (self is Dirty),
    {
        match self {
            RepoStatus::Dirty { .. } => true,
            RepoStatus::Clean { .. } => false,
        }
    }
}

pub open spec fn depth_in_range(depth: usize) -> bool {
    MIN_DEPTH <= depth <= MAX_DEPTH_LIMIT
}

/// Accepts a depth between `MIN_DEPTH` and `MAX_DEPTH_LIMIT`, both included.
pub fn validate_depth(depth: usize) -> (r: Result<usize, Error>)
    ensures
        depth_in_range(depth) <==> r is Ok,
        depth_in_range(depth) ==> r == Ok::<usize, Error>(depth),
        !depth_in_range(depth) ==> (r matches Err(Error::InvalidDepth(d)) && d == depth),
{
    if depth < MIN_DEPTH || depth > MAX_DEPTH_LIMIT {
        return Err(Error::InvalidDepth(depth));
    }
    Ok(depth)
}

/// Accepts a root path, given what the file system said of it: `canonical` is
/// the path with symbolic links and relative parts resolved, if it exists, and
/// `is_dir` whether that is a directory.
pub fn validate_path(path: &str, canonical: Option<String>, is_dir: bool) -> (r: Result<
    String,
    Error,
>)
    ensures
        canonical is None ==> (r matches Err(Error::InvalidPath(p)) && p@ == path@),
        canonical is Some && !is_dir ==> (r matches Err(Error::InvalidPath(p)) && p@ == canonical->0@),
        canonical is Some && is_dir ==> (r matches Ok(p) && p@ == canonical->0@),
{
    match canonical {
        None => Err(Error::InvalidPath(String::from_str(path))),
        Some(c) => {
            if !is_dir {
                Err(Error::InvalidPath(c))
            } else {
                Ok(c)
            }
        },
    }
}

/// The last component of a path, if it is a normal one.
pub uninterp spec fn file_name_of(p: Seq<char>) -> Option<Seq<char>>;

/// The path without its last component, if it has one.
pub uninterp spec fn parent_of(p: Seq<char>) -> Option<Seq<char>>;

/// Relies on `Path::file_name`: the final component of the path, unless it is
/// `..` or the path has none.
#[verifier::external_body]
pub(crate) fn file_name(p: &str) -> (r: Option<String>)
    ensures
        opt_text(r) == file_name_of(p@),
{
    std::path::Path::new(p).file_name().and_then(|n| n.to_str()).map(|n| n.to_string())
}

/// Relies on `Path::parent`: the path without its final component, if there
/// is one.
#[verifier::external_body]
fn parent(p: &str) -> (r: Option<String>)
    ensures
        opt_text(r) == parent_of(p@),
{
    std::path::Path::new(p).parent().and_then(|n| n.to_str()).map(|n| n.to_string())
}

/// One entry met while walking the tree under the root.
pub struct DirEntry {
    /// The entry's full path.
    pub path: String,
    /// How far below the root it lies; the root itself is at depth 0.
    pub depth: usize,
    /// Whether it is a directory.
    pub is_dir: bool,
}

/// The repository root that an entry marks, if it marks one: a directory
/// named `.git`, no deeper than `max_depth`, marks its parent.
pub open spec fn marked_root(e: DirEntry, max_depth: usize) -> Option<Seq<char>> {
    if e.is_dir && e.depth <= max_depth && file_name_of(e.path@) == Some(git_dir_name()) {
        parent_of(e.path@)
    } else {
        None
    }
}

pub open spec fn texts(v: Seq<String>) -> Seq<Seq<char>> {
    v.map_values(|s: String| s@)
}

/// Whether an entry with this file name marks a repository root: a directory
/// named `.git`, no deeper than `max_depth`.
pub fn marks_repo(is_dir: bool, depth: usize, max_depth: usize, name: &Option<String>) -> (r: bool)
    ensures
        r == (is_dir && depth <= max_depth && opt_text(*name) == Some(git_dir_name())),
{
    let git = String::from_str(".git");
    proof {
        reveal_strlit(".git");
        assert(git@ =~= git_dir_name());
    }
    is_dir && depth <= max_depth && match name {
        Some(n) => *n == git,
        None => false,
    }
}

/// The repository roots that the walked entries mark, in the order of the walk.
pub fn find_git_repos(entries: &Vec<DirEntry>, max_depth: usize) -> (r: Vec<String>)
    ensures
        texts(r@) == entries@.filter_map(|e: DirEntry| marked_root(e, max_depth)),
{
    let mut out: Vec<String> = Vec::new();
    let mut i: usize = 0;
    while i < entries.len()
        invariant
            i <= entries.len(),
            texts(out@) == entries@.take(i as int).filter_map(
                |e: DirEntry| marked_root(e, max_depth),
            ),
        decreases entries.len() - i,
    {
        let e = &entries[i];
        let ghost before = out@;
        if e.is_dir && e.depth <= max_depth {
            let name = file_name(e.path.as_str());
            if marks_repo(e.is_dir, e.depth, max_depth, &name) {
                match parent(e.path.as_str()) {
                    Some(p) => {
                        out.push(p);
                    },
                    None => {},
                }
            }
        }
        proof {
            assert(entries@.take(i + 1).drop_last() =~= entries@.take(i as int));
            assert(texts(before.push(out@.last())) =~= texts(before).push(out@.last()@));
        }
        i = i + 1;
    }
    proof {
        assert(entries@.take(entries.len() as int) =~= entries@);
    }
    out
}

/// What `String::from_utf8_lossy` makes of some bytes.
pub uninterp spec fn lossy_text(b: Seq<u8>) -> Seq<char>;

/// What `String::from_utf8` makes of some bytes: `None` where they are not
/// UTF-8.
pub uninterp spec fn utf8_text(b: Seq<u8>) -> Option<Seq<char>>;

/// Relies on `String::from_utf8_lossy`: the text of the bytes, with each
/// invalid sequence replaced.
#[verifier::external_body]
fn decode_lossy(b: &Vec<u8>) -> (r: String)
    ensures
        r@ == lossy_text(b@),
{
    String::from_utf8_lossy(b.as_slice()).into_owned()
}

/// Relies on `String::from_utf8`: the text of the bytes, if they are UTF-8.
#[verifier::external_body]
fn decode_utf8(b: &Vec<u8>) -> (r: Option<String>)
    ensures
        opt_text(r) == utf8_text(b@),
{
    String::from_utf8(b.clone()).ok()
}

/// What one run of `git` gave back.
pub enum GitOutput {
    /// `git` could not be started; the reason.
    NotStarted(String),
    /// `git` ran to its end.
    Finished { success: bool, stdout: Vec<u8>, stderr: Vec<u8> },
}

/// What `git` said of one repository: its porcelain status and, if it was
/// asked, its current branch.
pub struct RepoProbe {
    pub path: String,
    pub status: GitOutput,
    pub branch: Option<GitOutput>,
}

/// A repository is dirty when its status text is not blank.
pub open spec fn classify(
    path: Seq<char>,
    text: Seq<char>,
    branch: Option<Seq<char>>,
) -> StatusView {
    if is_blank(text) {
        StatusView::Clean { path, branch }
    } else {
        StatusView::Dirty { path, changes: text, branch }
    }
}

/// The branch name in the output of a branch query, trimmed; none where the
/// query failed or its output is not UTF-8.
pub open spec fn branch_of(out: Option<GitOutput>) -> Option<Seq<char>> {
    match out {
        Some(GitOutput::Finished { success, stdout, .. }) => {
            if success {
                match utf8_text(stdout@) {
                    Some(t) => Some(trimmed(t)),
                    None => None,
                }
            } else {
                None
            }
        },
        _ => None,
    }
}

/// The outcome of checking a repository: its state, or the message of the
/// failure of its status query.
pub open spec fn outcome(p: RepoProbe, include_branch: bool) -> Result<StatusView, Seq<char>> {
    match p.status {
        GitOutput::NotStarted(m) => Err(m@),
        GitOutput::Finished { success, stdout, stderr } => {
            if !success {
                Err(lossy_text(stderr@))
            } else {
                Ok(
                    classify(
                        p.path@,
                        lossy_text(stdout@),
                        if include_branch {
                            branch_of(p.branch)
                        } else {
                            None
                        },
                    ),
                )
            }
        },
    }
}

/// The repository and the message of a failed `git` run.
pub open spec fn failure_of(e: Error) -> Option<(Seq<char>, Seq<char>)> {
    match e {
        Error::GitCommandFailed { repo, message } => Some((repo@, message@)),
        _ => None,
    }
}

/// Whether a result is what an outcome says, for the repository at `path`.
pub open spec fn meets(r: Result<RepoStatus, Error>, o: Result<StatusView, Seq<char>>, path: Seq<char>) -> bool {
    match o {
        Ok(v) => r matches Ok(s) && s@ == v,
        Err(m) => r matches Err(e) && failure_of(e) == Some((path, m)),
    }
}

/// Classifies a repository from the text of its status query.
pub fn classify_status(path: String, text: String, branch: Option<String>) -> (r: RepoStatus)
    ensures
        r@ == classify(path@, text@, opt_text(branch)),
{
    if is_blank_text(text.as_str()) {
        RepoStatus::Clean { path, branch }
    } else {
        RepoStatus::Dirty { path, changes: text, branch }
    }
}

/// The trimmed branch name, from the decoded output of a successful branch
/// query.
pub fn branch_from_text(text: Option<String>) -> (r: Option<String>)
    ensures
        opt_text(r) == match opt_text(text) {
            Some(t) => Some(trimmed(t)),
            None => None,
        },
{
    match text {
        Some(t) => Some(trim_text(t.as_str())),
        None => None,
    }
}

/// The branch name that a branch query reported, if it succeeded.
pub fn branch_name(out: &Option<GitOutput>) -> (r: Option<String>)
    ensures
        opt_text(r) == branch_of(*out),
{
    match out {
        Some(GitOutput::Finished { success, stdout, .. }) => {
            if *success {
                branch_from_text(decode_utf8(stdout))
            } else {
                None
            }
        },
        _ => None,
    }
}

/// Whether the branch is worth asking for: only where it is wanted and the
/// status query succeeded.
pub fn wants_branch(include_branch: bool, status: &GitOutput) -> (r: bool)
    ensures
        r == (include_branch && (status matches GitOutput::Finished { success, .. } && *success)),
{
    include_branch && match status {
        GitOutput::Finished { success, .. } => *success,
        GitOutput::NotStarted(_) => false,
    }
}

/// The state of one repository, from what `git` said of it. A failed status
/// query is an error of that repository; a failed branch query only leaves
/// the branch out.
pub fn check_repo_status(probe: &RepoProbe, include_branch: bool) -> (r: Result<RepoStatus, Error>)
    ensures
        meets(r, outcome(*probe, include_branch), probe.path@),
{
    match &probe.status {
        GitOutput::NotStarted(m) => Err(
            Error::GitCommandFailed { repo: probe.path.clone(), message: m.clone() },
        ),
        GitOutput::Finished { success, stdout, stderr } => {
            if !*success {
                return Err(
                    Error::GitCommandFailed {
                        repo: probe.path.clone(),
                        message: decode_lossy(stderr),
                    },
                );
            }
            let text = decode_lossy(stdout);
            let branch = if include_branch {
                branch_name(&probe.branch)
            } else {
                None
            };
            Ok(classify_status(probe.path.clone(), text, branch))
        },
    }
}

pub open spec fn ok_part(o: Result<StatusView, Seq<char>>) -> Option<StatusView> {
    match o {
        Ok(v) => Some(v),
        Err(_) => None,
    }
}

pub open spec fn err_part(o: Result<StatusView, Seq<char>>, path: Seq<char>) -> Option<(Seq<char>, Seq<char>)> {
    match o {
        Ok(_) => None,
        Err(m) => Some((path, m)),
    }
}

pub open spec fn status_views(v: Seq<RepoStatus>) -> Seq<StatusView> {
    v.map_values(|s: RepoStatus| s@)
}

pub open spec fn failures(v: Seq<Error>) -> Seq<Option<(Seq<char>, Seq<char>)>> {
    v.map_values(|e: Error| failure_of(e))
}

/// Checks every repository and parts the results: the states of those whose
/// status query succeeded, and the errors of the others, each in the order
/// of `probes`. Every repository gives exactly one of the two.
pub fn check_repos_parallel(probes: &Vec<RepoProbe>, include_branch: bool) -> (r: (
    Vec<RepoStatus>,
    Vec<Error>,
))
    ensures
        status_views(r.0@) == probes@.filter_map(|p: RepoProbe| ok_part(outcome(p, include_branch))),
        failures(r.1@) == probes@.filter_map(
            |p: RepoProbe| err_part(outcome(p, include_branch), p.path@),
        ).map_values(|f: (Seq<char>, Seq<char>)| Some(f)),
        r.0.len() + r.1.len() == probes.len(),
{
    let mut statuses: Vec<RepoStatus> = Vec::new();
    let mut errors: Vec<Error> = Vec::new();
    let mut i: usize = 0;
    while i < probes.len()
        invariant
            i <= probes.len(),
            statuses.len() + errors.len() == i,
            status_views(statuses@) == probes@.take(i as int).filter_map(
                |p: RepoProbe| ok_part(outcome(p, include_branch)),
            ),
            failures(errors@) == probes@.take(i as int).filter_map(
                |p: RepoProbe| err_part(outcome(p, include_branch), p.path@),
            ).map_values(|f: (Seq<char>, Seq<char>)| Some(f)),
        decreases probes.len() - i,
    {
        let ghost s0 = statuses@;
        let ghost e0 = errors@;
        let result = check_repo_status(&probes[i], include_branch);
        match result {
            Ok(status) => {
                statuses.push(status);
                proof {
                    assert(status_views(s0.push(statuses@.last())) =~= status_views(s0).push(
                        statuses@.last()@,
                    ));
                }
            },
            Err(e) => {
                errors.push(e);
                proof {
                    assert(failures(e0.push(errors@.last())) =~= failures(e0).push(
                        failure_of(errors@.last()),
                    ));
                }
            },
        }
        proof {
            let t = probes@.take(i + 1);
            assert(t.drop_last() =~= probes@.take(i as int));
            let fe = |p: RepoProbe| err_part(outcome(p, include_branch), p.path@);
            let lift = |f: (Seq<char>, Seq<char>)| Some(f);
            assert(t.drop_last().filter_map(fe).map_values(lift).push(lift(
                fe(probes@[i as int]).unwrap(),
            )) =~= t.drop_last().filter_map(fe).push(fe(probes@[i as int]).unwrap()).map_values(
                lift,
            )) by {}
        }
        i = i + 1;
    }
    proof {
        assert(probes@.take(probes.len() as int) =~= probes@);
    }
    (statuses, errors)
}

/// A state with its branch left out.
pub open spec fn without_branch(v: StatusView) -> StatusView {
    match v {
        StatusView::Clean { path, .. } => StatusView::Clean { path, branch: None },
        StatusView::Dirty { path, changes, .. } => StatusView::Dirty { path, changes, branch: None },
    }
}

pub open spec fn branch_free(o: Result<StatusView, Seq<char>>) -> Result<StatusView, Seq<char>> {
    match o {
        Ok(v) => Ok(without_branch(v)),
        Err(m) => Err(m),
    }
}

/// Whatever the branch query of a repository gave, even a failure, the
/// repository checks out or fails alike, with the same error, and is clean or
/// dirty alike with the same changes: the branch query decides only the
/// branch.
pub proof fn lemma_branch_query_decides_only_branch(
    path: String,
    status: GitOutput,
    first: Option<GitOutput>,
    second: Option<GitOutput>,
    include_branch: bool,
)
    ensures
        branch_free(outcome(RepoProbe { path, status, branch: first }, include_branch))
            == branch_free(outcome(RepoProbe { path, status, branch: second }, include_branch)),
{
}

} // verus!
