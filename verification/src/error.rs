//! The error taxonomy of the runtime.
//!
//! `Cancelled` is deliberately not here: cancellation is an outcome, not an
//! error.

use vstd::prelude::*;
use vstd::string::*;

verus! {

/// Everything that can go wrong while validating or running operations.
#[derive(Debug, Clone, PartialEq, Eq)]
pub enum Error {
    /// The configuration has a logic error (missing task, bad parent, empty
    /// command, and so on).
    Config(String),
    /// A referenced path does not exist or is not a directory where one is
    /// required.
    Path(String),
    /// A child process could not be started.
    Spawn(String),
    /// An I/O error occurred while waiting on or killing a child process.
    Supervision(String),
    /// The filesystem notifier failed during setup or delivery.
    Watcher(String),
    /// An HTTP or WebSocket endpoint could not be bound.
    Bind(String),
    /// The upstream of the reverse proxy could not be reached.
    Upstream(String),
    /// A `reload` operation ran without a covering `http` operation.
    NoReloaderInScope,
}

impl Error {
    /// A short, stable description of the error kind.
    pub fn kind_name(&self) -> (r: &'static str)
        ensures
            r@ == spec_kind_name(*self),
    {
        match self {
            Error::Config(_) => "configuration error",
            Error::Path(_) => "path error",
            Error::Spawn(_) => "spawn error",
            Error::Supervision(_) => "supervision error",
            Error::Watcher(_) => "watcher error",
            Error::Bind(_) => "bind error",
            Error::Upstream(_) => "upstream error",
            Error::NoReloaderInScope => "no reloader in scope",
        }
    }

    /// The full message: the kind, then the detail where one exists.
    pub fn message(&self) -> (r: String)
        ensures
            r@ == spec_message(*self),
    {
        let kind = self.kind_name();
        match self {
            Error::Config(d) => String::from_str(kind).concat(": ").concat(d.as_str()),
            Error::Path(d) => String::from_str(kind).concat(": ").concat(d.as_str()),
            Error::Spawn(d) => String::from_str(kind).concat(": ").concat(d.as_str()),
            Error::Supervision(d) => String::from_str(kind).concat(": ").concat(d.as_str()),
            Error::Watcher(d) => String::from_str(kind).concat(": ").concat(d.as_str()),
            Error::Bind(d) => String::from_str(kind).concat(": ").concat(d.as_str()),
            Error::Upstream(d) => String::from_str(kind).concat(": ").concat(d.as_str()),
            Error::NoReloaderInScope => String::from_str(kind),
        }
    }
}

/// The kind description used by `kind_name`.
pub open spec fn spec_kind_name(e: Error) -> Seq<char> {
    match e {
        Error::Config(_) => "configuration error"@,
        Error::Path(_) => "path error"@,
        Error::Spawn(_) => "spawn error"@,
        Error::Supervision(_) => "supervision error"@,
        Error::Watcher(_) => "watcher error"@,
        Error::Bind(_) => "bind error"@,
        Error::Upstream(_) => "upstream error"@,
        Error::NoReloaderInScope => "no reloader in scope"@,
    }
}

/// The detail payload of an error, where it has one.
pub open spec fn spec_detail(e: Error) -> Option<Seq<char>> {
    match e {
        Error::Config(d) => Some(d@),
        Error::Path(d) => Some(d@),
        Error::Spawn(d) => Some(d@),
        Error::Supervision(d) => Some(d@),
        Error::Watcher(d) => Some(d@),
        Error::Bind(d) => Some(d@),
        Error::Upstream(d) => Some(d@),
        Error::NoReloaderInScope => None,
    }
}

/// The full message built by `message`.
pub open spec fn spec_message(e: Error) -> Seq<char> {
    match spec_detail(e) {
        Some(d) => spec_kind_name(e) + ": "@ + d,
        None => spec_kind_name(e),
    }
}

} // verus!
