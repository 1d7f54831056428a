//! The `run-task` operation: runs another task of the configuration by
//! name.

use vstd::prelude::*;
use crate::cfg::{spec_has_task, Config};
use crate::error::Error;
use crate::task::Task;

verus! {

/// The `run-task` operation: the name of the task to run.
#[derive(Debug, Clone)]
pub struct RunTask(pub String);

impl RunTask {
    /// The referenced task must exist.
    pub fn validate(&self, config: &Config) -> (r: Result<(), Error>)
        ensures
            r is Ok <==> spec_has_task(config.tasks@, self.0@),
    {
        if config.has_task(&self.0) {
            Ok(())
        } else {
            Err(Error::Config(String::from_str("task does not exist")))
        }
    }

    /// The task this operation runs. `None` exactly when the configuration
    /// has no task of that name.
    pub fn target<'a>(&self, config: &'a Config) -> (r: Option<&'a Task>)
        ensures
            r is Some <==> spec_has_task(config.tasks@, self.0@),
            r matches Some(t) ==> exists|i: int|
                0 <= i < config.tasks@.len() && *t == config.tasks@[i] && t.name@ == self.0@,
    {
        config.get_task(&self.0)
    }
}

} // verus!
