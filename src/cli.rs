//! The command-line options and the values the scan takes from them.
use vstd::prelude::*;
use crate::error::Error;
use crate::output::{OutputFormat, Verbosity};

verus! {

#[verifier::external_type_specification]
#[verifier::external_body]
pub struct ExShell(clap_complete::Shell);

/// Depth used when none is given.
pub const DEFAULT_MAX_DEPTH: usize = 3;

/// The options of one run.
pub struct Args {
    /// Root directory to search.
    pub root: Option<String>,
    /// Maximum directory depth.
    pub maxdepth: Option<usize>,
    /// Report through the exit code only.
    pub quiet: bool,
    /// Show each dirty repository's changes.
    pub verbose: bool,
    /// Write one JSON document.
    pub json: bool,
    /// Show branch names.
    pub show_branch: bool,
    /// Write a completion script for this shell instead of scanning.
    pub generate_completion: Option<clap_complete::Shell>,
}

/// `home` with the `projects` directory joined on, as `Path::join` joins a
/// relative name: a separator goes between unless `home` is empty or already
/// ends with one.
pub open spec fn projects_dir(home: Seq<char>) -> Seq<char> {
    if home.len() == 0 || home.last() == '/' {
        home + seq!['p', 'r', 'o', 'j', 'e', 'c', 't', 's']
    } else {
        home + seq!['/', 'p', 'r', 'o', 'j', 'e', 'c', 't', 's']
    }
}

/// The root to scan: the one given, else the `projects` directory in the
/// home directory, if that was found.
pub fn resolve_root(explicit: Option<String>, home: Option<String>) -> (r: Result<String, Error>)
    ensures
        explicit matches Some(p) ==> (r matches Ok(q) && q@ == p@),
        explicit is None && home is Some ==> (r matches Ok(q) && q@ == projects_dir(home->0@)),
        explicit is None && home is None ==> (r matches Err(e) && e is HomeDirectoryNotFound),
{
    match explicit {
        Some(p) => Ok(p),
        None => match home {
            None => Err(Error::HomeDirectoryNotFound),
            Some(h) => {
                let n = h.as_str().unicode_len();
                let mut s = h.clone();
                let sep = n == 0 || h.as_str().get_char(n - 1) == '/';
                if sep {
                    s.append("projects");
                } else {
                    s.append("/projects");
                }
                proof {
                    reveal_strlit("projects");
                    reveal_strlit("/projects");
                    assert("projects"@ =~= seq!['p', 'r', 'o', 'j', 'e', 'c', 't', 's']);
                    assert("/projects"@ =~= seq!['/', 'p', 'r', 'o', 'j', 'e', 'c', 't', 's']);
                }
                Ok(s)
            },
        },
    }
}

/// Relies on `dirs::home_dir`: the user's home directory, if one can be found.
/// It depends on the environment, so nothing is stated of it.
#[verifier::external_body]
fn home_dir() -> (r: Option<String>) {
    dirs::home_dir().map(|p| p.to_string_lossy().into_owned())
}

impl Args {
    /// The verbosity that the flags ask for.
    pub fn verbosity(&self) -> (r: Verbosity)
        ensures
            self.quiet ==> r == Verbosity::Quiet,
            !self.quiet && self.verbose ==> r == Verbosity::Verbose,
            !self.quiet && !self.verbose ==> r == Verbosity::Summary,
    {
        Verbosity::from_flags(self.quiet, self.verbose)
    }

    /// The output format that the flags ask for.
    pub fn output_format(&self) -> (r: OutputFormat)
        ensures
            r == if self.json {
                OutputFormat::Json
            } else {
                OutputFormat::Human
            },
    {
        if self.json {
            OutputFormat::Json
        } else {
            OutputFormat::Human
        }
    }

    /// The depth given, or the default one.
    pub fn max_depth(&self) -> (r: usize)
        ensures
            r == match self.maxdepth {
                Some(d) => d,
                None => DEFAULT_MAX_DEPTH,
            },
    {
        match self.maxdepth {
            Some(d) => d,
            None => DEFAULT_MAX_DEPTH,
        }
    }

    /// The root to scan: the one given, else `projects` in the home directory.
    /// Fails only where no root is given and no home directory is found.
    pub fn root_path(&self) -> (r: Result<String, Error>)
        ensures
            self.root matches Some(p) ==> (r matches Ok(q) && q@ == p@),
            r matches Err(e) ==> self.root is None && e is HomeDirectoryNotFound,
            self.root is None && r is Ok ==> exists|h: Seq<char>| #[trigger] projects_dir(h)
                == r->Ok_0@,
    {
        match &self.root {
            Some(p) => Ok(p.clone()),
            None => resolve_root(None, home_dir()),
        }
    }
}

} // verus!
