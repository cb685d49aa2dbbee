//! One run of the tool, as a sequence of steps: each step takes what the
//! outside world reported and says what to do next.
use vstd::prelude::*;
use crate::cli::{projects_dir, resolve_root, Args};
use crate::error::{error_text, Error};
use crate::output::{
    change_lines, dirty_count, dirty_views, exit_code, exit_code_of, get_repo_name,
    lemma_dirty_count_views, repo_name, shown_lines, summarize, JsonOutput, OutputFormat, Summary,
    Verbosity,
};
use crate::scan::{
    check_repos_parallel, depth_in_range, err_part, failure_of, find_git_repos, ok_part, opt_text,
    outcome, status_views, texts, validate_depth, validate_path, DirEntry, RepoProbe, RepoStatus,
    StatusView,
};

verus! {

/// What a run has settled on once its inputs are checked.
pub struct Settings {
    pub root: String,
    pub max_depth: usize,
    pub include_branch: bool,
    pub format: OutputFormat,
    pub verbosity: Verbosity,
}

/// The verbose block of one dirty repository.
pub struct RepoDetail {
    pub name: String,
    pub branch: Option<String>,
    /// The lines of its changes that are not blank.
    pub lines: Vec<String>,
}

pub open spec fn detail_view(d: RepoDetail) -> (Seq<char>, Option<Seq<char>>, Seq<Seq<char>>) {
    (d.name@, opt_text(d.branch), texts(d.lines@))
}

/// The block a repository gets in the verbose listing: only a dirty one has one.
pub open spec fn detail_of(s: RepoStatus) -> Option<(Seq<char>, Option<Seq<char>>, Seq<Seq<char>>)> {
    detail_of_view(s@)
}

pub open spec fn detail_of_view(v: StatusView) -> Option<(Seq<char>, Option<Seq<char>>, Seq<Seq<char>>)> {
    match v {
        StatusView::Dirty { path, changes, branch } => Some(
            (repo_name(path), branch, shown_lines(changes)),
        ),
        StatusView::Clean { .. } => None,
    }
}

/// Listing the blocks of the repositories or of their states comes to the same.
pub proof fn lemma_details_of_views(s: Seq<RepoStatus>)
    ensures
        s.filter_map(|x: RepoStatus| detail_of(x)) == status_views(s).filter_map(
            |v: StatusView| detail_of_view(v),
        ),
    decreases s.len(),
{
    if s.len() > 0 {
        lemma_details_of_views(s.drop_last());
        assert(status_views(s.drop_last()) =~= status_views(s).drop_last());
    }
}

/// Everything a finished run reports.
pub struct Report {
    /// One line for each repository whose status query failed.
    pub warnings: Vec<String>,
    /// The verbose blocks of the dirty repositories.
    pub details: Vec<RepoDetail>,
    /// The counts, in the human format.
    pub summary: Option<Summary>,
    /// The document, in the JSON format.
    pub document: Option<JsonOutput>,
    pub exit_code: i32,
}

/// The verbose blocks of the dirty repositories, in order.
pub fn repo_details(statuses: &Vec<RepoStatus>) -> (r: Vec<RepoDetail>)
    ensures
        r@.map_values(|d: RepoDetail| detail_view(d)) == statuses@.filter_map(
            |s: RepoStatus| detail_of(s),
        ),
{
    let mut out: Vec<RepoDetail> = Vec::new();
    let mut i: usize = 0;
    while i < statuses.len()
        invariant
            i <= statuses.len(),
            out@.map_values(|d: RepoDetail| detail_view(d)) == statuses@.take(i as int).filter_map(
                |s: RepoStatus| detail_of(s),
            ),
        decreases statuses.len() - i,
    {
        let ghost before = out@;
        match &statuses[i] {
            RepoStatus::Dirty { path, changes, branch } => {
                let b = match branch {
                    Some(x) => Some(x.clone()),
                    None => None,
                };
                let d = RepoDetail {
                    name: get_repo_name(path.as_str()),
                    branch: b,
                    lines: change_lines(changes.as_str()),
                };
                out.push(d);
                proof {
                    assert(before.push(out@.last()).map_values(|d: RepoDetail| detail_view(d))
                        =~= before.map_values(|d: RepoDetail| detail_view(d)).push(
                        detail_view(out@.last()),
                    ));
                }
            },
            RepoStatus::Clean { .. } => {},
        }
        proof {
            assert(statuses@.take(i + 1).drop_last() =~= statuses@.take(i as int));
        }
        i = i + 1;
    }
    proof {
        assert(statuses@.take(statuses.len() as int) =~= statuses@);
    }
    out
}

/// The warning lines for the repositories whose status query failed.
pub fn warning_lines(errors: &Vec<Error>) -> (r: Vec<String>)
    ensures
        r.len() == errors.len(),
        forall|k: int|
            0 <= k < errors.len() && !(errors@[k] is Io) ==> #[trigger] r@[k]@ == error_text(
                &errors@[k],
            ),
{
    let mut out: Vec<String> = Vec::new();
    let mut i: usize = 0;
    while i < errors.len()
        invariant
            i <= errors.len(),
            out.len() == i,
            forall|k: int|
                0 <= k < i && !(errors@[k] is Io) ==> #[trigger] out@[k]@ == error_text(
                    &errors@[k],
                ),
        decreases errors.len() - i,
    {
        out.push(errors[i].to_string());
        i = i + 1;
    }
    out
}

/// What a run reports from the repositories it checked. Warnings come at
/// `Summary` and above; the verbose blocks only in the human format at
/// `Verbose`; the counts in the human format from `Summary` up; the document
/// in the JSON format unless quiet. The exit code is the number of dirty
/// repositories, at most 255.
pub fn report(settings: &Settings, statuses: Vec<RepoStatus>, errors: &Vec<Error>) -> (r: Report)
    ensures
        r.exit_code == exit_code_of(dirty_count(statuses@)),
        settings.verbosity.rank() >= 1 ==> r.warnings.len() == errors.len() && forall|k: int|
            0 <= k < errors.len() && !(errors@[k] is Io) ==> #[trigger] r.warnings@[k]@
                == error_text(&errors@[k]),
        settings.verbosity.rank() < 1 ==> r.warnings.len() == 0,
        settings.format == OutputFormat::Human && settings.verbosity.rank() >= 2 ==> r.details@.map_values(
            |d: RepoDetail| detail_view(d),
        ) == statuses@.filter_map(|s: RepoStatus| detail_of(s)),
        !(settings.format == OutputFormat::Human && settings.verbosity.rank() >= 2) ==> r.details.len()
            == 0,
        settings.format == OutputFormat::Human && settings.verbosity.rank() >= 1 ==> r.summary
            == Some(
            Summary {
                total: statuses.len(),
                dirty: dirty_count(statuses@) as usize,
                clean: (statuses.len() - dirty_count(statuses@)) as usize,
            },
        ),
        !(settings.format == OutputFormat::Human && settings.verbosity.rank() >= 1) ==> r.summary
            is None,
        settings.format == OutputFormat::Json && settings.verbosity.rank() >= 1 ==> (r.document matches Some(d) && d.total
            == statuses.len() && d.dirty == dirty_count(statuses@) && d.clean == d.total - d.dirty
            && d.repositories@ == statuses@),
        !(settings.format == OutputFormat::Json && settings.verbosity.rank() >= 1) ==> r.document
            is None,
{
    let level = settings.verbosity.level();
    let warnings = if level >= 1 {
        warning_lines(errors)
    } else {
        Vec::new()
    };
    let counts = summarize(&statuses);
    let code = exit_code(counts.dirty);
    let human = match settings.format {
        OutputFormat::Human => true,
        OutputFormat::Json => false,
    };
    let details = if human && level >= 2 {
        repo_details(&statuses)
    } else {
        Vec::new()
    };
    let summary = if human && level >= 1 {
        Some(counts)
    } else {
        None
    };
    let document = if !human && level >= 1 {
        Some(JsonOutput::new(statuses))
    } else {
        None
    };
    Report { warnings, details, summary, document, exit_code: code }
}

/// Where a run stands between two steps.
pub enum Session {
    /// Nothing has happened yet.
    Start,
    /// Waiting to learn what the file system says of the root.
    CheckingPath {
        path: String,
        max_depth: usize,
        include_branch: bool,
        format: OutputFormat,
        verbosity: Verbosity,
    },
    /// Waiting for the walk of the tree under the root.
    Walking(Settings),
    /// Waiting for `git`'s answers on each repository.
    Checking(Settings),
    /// The run is over.
    Done,
}

/// What the outside world reports to a run.
pub enum Event {
    /// The command line, and the home directory if one was found.
    Started { args: Args, home: Option<String> },
    /// What the file system says of the root: its canonical form if it
    /// exists, and whether that is a directory.
    PathChecked { canonical: Option<String>, is_dir: bool },
    /// The entries met while walking the tree under the root.
    TreeWalked { entries: Vec<DirEntry> },
    /// What `git` said of each repository.
    ReposChecked { probes: Vec<RepoProbe> },
}

/// What a run asks the outside world to do next.
pub enum Action {
    /// Resolve the path and tell whether it is a directory.
    CheckPath { path: String },
    /// Walk the tree under `root`, no deeper than `max_depth`; first write the
    /// scan header if `announce` is set.
    WalkTree { root: String, max_depth: usize, announce: bool },
    /// Ask `git` about each repository.
    CheckRepos { repos: Vec<String>, include_branch: bool },
    /// Write the report and exit with its code.
    Finish(Report),
    /// Write the error line and exit with code 1.
    Fail { message: String },
}

/// Ends a run with an error.
fn fail(e: Error) -> (r: (Session, Action))
    ensures
        r.0 is Done,
        r.1 matches Action::Fail { message } && (!(e is Io) ==> message@ == error_text(&e)),
{
    (Session::Done, Action::Fail { message: e.to_string() })
}

/// Whether an action ends the run with this error line.
pub open spec fn fails_with(a: Action, text: Seq<char>) -> bool {
    match a {
        Action::Fail { message } => message@ == text,
        _ => false,
    }
}

/// The root a run starts with: the one given, else `projects` in the home
/// directory.
pub open spec fn start_root(args: Args, home: Option<String>) -> Option<Seq<char>> {
    match args.root {
        Some(p) => Some(p@),
        None => match home {
            Some(h) => Some(projects_dir(h@)),
            None => None,
        },
    }
}

pub open spec fn start_depth(args: Args) -> usize {
    match args.maxdepth {
        Some(d) => d,
        None => crate::cli::DEFAULT_MAX_DEPTH,
    }
}

pub open spec fn verbosity_of(args: Args) -> Verbosity {
    if args.quiet {
        Verbosity::Quiet
    } else if args.verbose {
        Verbosity::Verbose
    } else {
        Verbosity::Summary
    }
}

/// The first step: resolve the root and check the depth, then ask about the
/// root. No scan starts where either fails.
pub open spec fn after_start(event: Event, r: (Session, Action)) -> bool {
    match event {
        Event::Started { args, home } => match start_root(args, home) {
            None => fails_with(r.1, error_text(&Error::HomeDirectoryNotFound)),
            Some(root) => if !depth_in_range(start_depth(args)) {
                fails_with(r.1, error_text(&Error::InvalidDepth(start_depth(args))))
            } else {
                match (r.0, r.1) {
                    (
                        Session::CheckingPath { path: p, max_depth, include_branch, format, verbosity },
                        Action::CheckPath { path },
                    ) => {
                        &&& path@ == root
                        &&& p@ == root
                        &&& max_depth == start_depth(args)
                        &&& include_branch == args.show_branch
                        &&& format == (if args.json {
                            OutputFormat::Json
                        } else {
                            OutputFormat::Human
                        })
                        &&& verbosity == verbosity_of(args)
                    },
                    _ => false,
                }
            },
        },
        _ => false,
    }
}

/// The second step: a root that is no directory ends the run; else walk it,
/// with the scan header first when verbose.
pub open spec fn after_path(session: Session, event: Event, r: (Session, Action)) -> bool {
    match (session, event) {
        (
            Session::CheckingPath { path, max_depth, include_branch, format, verbosity },
            Event::PathChecked { canonical, is_dir },
        ) => match canonical {
            None => fails_with(r.1, error_text(&Error::InvalidPath(path))),
            Some(c) => if !is_dir {
                fails_with(r.1, error_text(&Error::InvalidPath(c)))
            } else {
                match (r.0, r.1) {
                    (Session::Walking(s), Action::WalkTree { root, max_depth: d, announce }) => {
                        &&& root@ == c@
                        &&& s.root@ == c@
                        &&& d == max_depth
                        &&& s.max_depth == max_depth
                        &&& s.include_branch == include_branch
                        &&& s.format == format
                        &&& s.verbosity == verbosity
                        &&& announce == (verbosity.rank() >= 2)
                    },
                    _ => false,
                }
            },
        },
        _ => false,
    }
}

/// The third step: ask `git` about each repository root that the walk met.
pub open spec fn after_walk(session: Session, event: Event, r: (Session, Action)) -> bool {
    match (session, event, r.0, r.1) {
        (
            Session::Walking(s),
            Event::TreeWalked { entries },
            Session::Checking(s2),
            Action::CheckRepos { repos, include_branch },
        ) => {
            &&& texts(repos@) == entries@.filter_map(
                |e: DirEntry| crate::scan::marked_root(e, s.max_depth),
            )
            &&& include_branch == s.include_branch
            &&& s2 == s
        },
        _ => false,
    }
}

/// The states of the repositories whose status query succeeded.
pub open spec fn checked(probes: Seq<RepoProbe>, include_branch: bool) -> Seq<StatusView> {
    probes.filter_map(|p: RepoProbe| ok_part(outcome(p, include_branch)))
}

/// The repositories whose status query failed, with the message of each.
pub open spec fn failed(probes: Seq<RepoProbe>, include_branch: bool) -> Seq<(Seq<char>, Seq<char>)> {
    probes.filter_map(|p: RepoProbe| err_part(outcome(p, include_branch), p.path@))
}

pub open spec fn warning_text(f: (Seq<char>, Seq<char>)) -> Seq<char> {
    "Git command failed in "@ + f.0 + ": "@ + f.1
}

/// The last step: report on the repositories that `git` answered for.
pub open spec fn after_check(session: Session, event: Event, r: (Session, Action)) -> bool {
    match (session, event, r.0, r.1) {
        (Session::Checking(s), Event::ReposChecked { probes }, Session::Done, Action::Finish(rep)) => {
            let views = checked(probes@, s.include_branch);
            let fails = failed(probes@, s.include_branch);
            let dirty = dirty_views(views);
            let human = s.format == OutputFormat::Human;
            &&& rep.exit_code == exit_code_of(dirty)
            &&& s.verbosity.rank() >= 1 ==> rep.warnings.len() == fails.len() && forall|k: int|
                0 <= k < fails.len() ==> #[trigger] rep.warnings@[k]@ == warning_text(fails[k])
            &&& s.verbosity.rank() < 1 ==> rep.warnings.len() == 0
            &&& human && s.verbosity.rank() >= 1 ==> rep.summary == Some(
                Summary {
                    total: views.len() as usize,
                    dirty: dirty as usize,
                    clean: (views.len() - dirty) as usize,
                },
            )
            &&& !(human && s.verbosity.rank() >= 1) ==> rep.summary is None
            &&& !human && s.verbosity.rank() >= 1 ==> (rep.document matches Some(d) && status_views(
                d.repositories@,
            ) == views && d.total == views.len() && d.dirty == dirty && d.clean == d.total
                - d.dirty)
            &&& !(!human && s.verbosity.rank() >= 1) ==> rep.document is None
            &&& human && s.verbosity.rank() >= 2 ==> rep.details@.map_values(
                |d: RepoDetail| detail_view(d),
            ) == views.filter_map(|v: StatusView| detail_of_view(v))
            &&& !(human && s.verbosity.rank() >= 2) ==> rep.details.len() == 0
        },
        _ => false,
    }
}

/// One step of a run: what comes next, given where the run stands and what
/// the outside world reported. An event out of its turn ends the run with an
/// error.
pub fn run(session: Session, event: Event) -> (r: (Session, Action))
    ensures
        session is Start && event is Started ==> after_start(event, r),
        session is CheckingPath && event is PathChecked ==> after_path(session, event, r),
        session is Walking && event is TreeWalked ==> after_walk(session, event, r),
        session is Checking && event is ReposChecked ==> after_check(session, event, r),
        r.1 is Fail ==> r.0 is Done,
{
    match (session, event) {
        (Session::Start, Event::Started { args, home }) => {
            let verbosity = args.verbosity();
            let format = args.output_format();
            let root = match resolve_root(args.root, home) {
                Ok(p) => p,
                Err(e) => {
                    return fail(e);
                },
            };
            let depth = match args.maxdepth {
                Some(d) => d,
                None => crate::cli::DEFAULT_MAX_DEPTH,
            };
            let depth = match validate_depth(depth) {
                Ok(d) => d,
                Err(e) => {
                    return fail(e);
                },
            };
            let path = root.clone();
            (
                Session::CheckingPath {
                    path: root,
                    max_depth: depth,
                    include_branch: args.show_branch,
                    format,
                    verbosity,
                },
                Action::CheckPath { path },
            )
        },
        (
            Session::CheckingPath { path, max_depth, include_branch, format, verbosity },
            Event::PathChecked { canonical, is_dir },
        ) => {
            let root = match validate_path(path.as_str(), canonical, is_dir) {
                Ok(p) => p,
                Err(e) => {
                    return fail(e);
                },
            };
            let announce = verbosity.level() >= 2;
            let walk_root = root.clone();
            (
                Session::Walking(Settings { root, max_depth, include_branch, format, verbosity }),
                Action::WalkTree { root: walk_root, max_depth, announce },
            )
        },
        (Session::Walking(settings), Event::TreeWalked { entries }) => {
            let repos = find_git_repos(&entries, settings.max_depth);
            let include_branch = settings.include_branch;
            (Session::Checking(settings), Action::CheckRepos { repos, include_branch })
        },
        (Session::Checking(settings), Event::ReposChecked { probes }) => {
            let (statuses, errors) = check_repos_parallel(&probes, settings.include_branch);
            proof {
                lemma_dirty_count_views(statuses@);
                lemma_details_of_views(statuses@);
                let fails = failed(probes@, settings.include_branch);
                let lifted = fails.map_values(|f: (Seq<char>, Seq<char>)| Some(f));
                assert(crate::scan::failures(errors@) == lifted);
                assert(crate::scan::failures(errors@).len() == errors.len());
                assert(status_views(statuses@).len() == statuses.len());
                assert(status_views(statuses@) == checked(probes@, settings.include_branch));
                assert forall|k: int| 0 <= k < errors.len() implies !(errors@[k] is Io)
                    && error_text(&errors@[k]) == warning_text(fails[k]) by {
                    assert(crate::scan::failures(errors@)[k] == failure_of(errors@[k]));
                    assert(lifted[k] == Some(fails[k]));
                }
            }
            let rep = report(&settings, statuses, &errors);
            (Session::Done, Action::Finish(rep))
        },
        _ => fail(Error::Other(String::from_str("event out of turn"))),
    }
}

} // verus!
