//! Errors of a scan, and the line of text that each one is reported with.
use vstd::prelude::*;
use vstd::string::to_string_from_display_ensures;
use crate::text::{decimal, push_decimal};

verus! {

#[verifier::external_type_specification]
#[verifier::external_body]
pub struct ExIoError(std::io::Error);

/// What can go wrong while scanning.
#[derive(Debug)]
pub enum Error {
    /// The home directory could not be determined.
    HomeDirectoryNotFound,
    /// The root path does not exist or is not a directory.
    InvalidPath(String),
    /// The depth lies outside the accepted bounds.
    InvalidDepth(usize),
    /// `git` could not be run in a repository, or reported a failure there.
    GitCommandFailed { repo: String, message: String },
    /// An input/output error.
    Io(std::io::Error),
    /// Any other failure, with its message.
    Other(String),
}

/// The text an error is reported with; an I/O error's own text is not known
/// here, so it has none.
pub open spec fn error_text(e: &Error) -> Seq<char> {
    match e {
        Error::HomeDirectoryNotFound => "Could not determine home directory"@,
        Error::InvalidPath(p) => "Invalid path: "@ + p@,
        Error::InvalidDepth(d) => "Invalid depth: "@ + decimal(*d as nat)
            + " (must be between 1 and 100)"@,
        Error::GitCommandFailed { repo, message } => "Git command failed in "@ + repo@ + ": "@
            + message@,
        Error::Io(_) => "IO error: "@,
        Error::Other(m) => m@,
    }
}

impl Error {
    /// The line of text that reports this error.
    pub fn to_string(&self) -> (r: String)
        ensures
            !(self is Io) ==> r@ == error_text(self),
            self matches Error::Io(e) ==> exists|t: String|
                #[trigger] to_string_from_display_ensures::<std::io::Error>(e, t) && r@
                    == error_text(self) + t@,
    {
        match self {
            Error::HomeDirectoryNotFound => String::from_str("Could not determine home directory"),
            Error::InvalidPath(p) => {
                let mut s = String::from_str("Invalid path: ");
                s.append(p.as_str());
                s
            },
            Error::InvalidDepth(d) => {
                let mut s = String::from_str("Invalid depth: ");
                push_decimal(&mut s, *d);
                s.append(" (must be between 1 and 100)");
                s
            },
            Error::GitCommandFailed { repo, message } => {
                let mut s = String::from_str("Git command failed in ");
                s.append(repo.as_str());
                s.append(": ");
                s.append(message.as_str());
                s
            },
            Error::Io(e) => {
                let t = e.to_string();
                let mut s = String::from_str("IO error: ");
                s.append(t.as_str());
                s
            },
            Error::Other(m) => m.clone(),
        }
    }
}

impl From<std::io::Error> for Error {
    fn from(err: std::io::Error) -> (r: Error)
        ensures
            r == Error::Io(err),
    {
        Error::Io(err)
    }
}

impl vstd::std_specs::convert::FromSpecImpl<std::io::Error> for Error {
    open spec fn obeys_from_spec() -> bool {
        true
    }

    open spec fn from_spec(v: std::io::Error) -> Error {
        Error::Io(v)
    }
}

} // verus!
