//! The configuration: a set of named tasks, each an ordered list of
//! operations. Loading the file and parsing it is the runtime's business;
//! the model and its validation live here.

use vstd::prelude::*;
use crate::error::Error;
use crate::task::Task;

verus! {

/// A task of the given name exists.
pub open spec fn spec_has_task(tasks: Seq<Task>, name: Seq<char>) -> bool {
    exists|i: int| 0 <= i < tasks.len() && (#[trigger] tasks[i]).name@ == name
}

/// The root configuration object: the tasks, by name.
#[derive(Debug)]
pub struct Config {
    pub tasks: Vec<Task>,
}

impl Config {
    /// Task names are unique.
    pub open spec fn wf(self) -> bool {
        forall|i: int, j: int|
            0 <= i < j < self.tasks@.len() ==> (#[trigger] self.tasks@[i]).name@ != (
            #[trigger] self.tasks@[j]).name@
    }

    /// Whether a task of the given name exists.
    pub fn has_task(&self, name: &String) -> (r: bool)
        ensures
            r == spec_has_task(self.tasks@, name@),
    {
        self.get_task(name).is_some()
    }

    /// The task of the given name, if one exists.
    pub fn get_task(&self, name: &String) -> (r: Option<&Task>)
        ensures
            r is Some <==> spec_has_task(self.tasks@, name@),
            r matches Some(t) ==> exists|i: int|
                0 <= i < self.tasks@.len() && *t == self.tasks@[i] && t.name@ == name@,
    {
        let n = self.tasks.len();
        let mut i: usize = 0;
        while i < n
            invariant
                i <= n,
                n == self.tasks@.len(),
                forall|j: int| 0 <= j < i ==> (#[trigger] self.tasks@[j]).name@ != name@,
            decreases n - i,
        {
            if self.tasks[i].name == *name {
                return Some(&self.tasks[i]);
            }
            i = i + 1;
        }
        None
    }

    /// Validates every task of the configuration, and so every operation at
    /// its place in the tree. Succeeds exactly when all of them are valid.
    pub fn validate(&self) -> (r: Result<(), Error>)
        ensures
            r is Ok <==> forall|i: int|
                0 <= i < self.tasks@.len() ==> crate::task::spec_task_valid(
                    #[trigger] self.tasks@[i],
                    *self,
                ),
    {
        let n = self.tasks.len();
        let mut i: usize = 0;
        while i < n
            invariant
                i <= n,
                n == self.tasks@.len(),
                forall|j: int|
                    0 <= j < i ==> crate::task::spec_task_valid(#[trigger] self.tasks@[j], *self),
            decreases n - i,
        {
            let res = self.tasks[i].validate(self);
            if let Err(e) = res {
                return Err(e);
            }
            i = i + 1;
        }
        Ok(())
    }
}

} // verus!
