//! The `copy` operation. Its runtime semantics are deliberately left open;
//! only its configuration shape and validation are defined.

use vstd::prelude::*;

verus! {

/// The `copy` operation: a source and a destination path.
#[derive(Debug, Clone)]
pub struct Copy {
    pub src: String,
    pub dst: String,
}

impl Copy {
    /// A copy specification carries no further obligations.
    pub fn validate(&self) -> (r: Result<(), crate::error::Error>)
        ensures
            r is Ok,
    {
        Ok(())
    }
}

} // verus!
