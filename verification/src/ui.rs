//! Terminal output policy: verbosity levels and which messages they show.
//! The writer itself lives outside the library.

use vstd::prelude::*;
use vstd::string::*;
use crate::error::Error;

verus! {

/// Level of verbosity, controlling which messages to print.
#[derive(Debug, Clone, Copy, PartialEq, Eq, Structural)]
pub enum Verbosity {
    Normal,
    Verbose,
    Trace,
}

impl Verbosity {
    /// The level selected by the number of `-v` flags: none, one or two;
    /// more are rejected.
    pub fn from_count(count: u8) -> (r: Result<Verbosity, Error>)
        ensures
            count == 0 ==> r == Ok::<Verbosity, Error>(Verbosity::Normal),
            count == 1 ==> r == Ok::<Verbosity, Error>(Verbosity::Verbose),
            count == 2 ==> r == Ok::<Verbosity, Error>(Verbosity::Trace),
            count > 2 <==> r is Err,
    {
        match count {
            0 => Ok(Verbosity::Normal),
            1 => Ok(Verbosity::Verbose),
            2 => Ok(Verbosity::Trace),
            _ => Err(
                Error::Config(
                    String::from_str("invalid verbosity level: flag -v specified too often"),
                ),
            ),
        }
    }
}

/// Whether verbose messages are shown at this level.
pub fn if_verbose(level: Verbosity) -> (r: bool)
    ensures
        r == (level == Verbosity::Verbose || level == Verbosity::Trace),
{
    level == Verbosity::Verbose || level == Verbosity::Trace
}

} // verus!
