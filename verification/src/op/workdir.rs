//! The `set-workdir` operation and the working-directory frame variable.

use vstd::prelude::*;
use crate::context::{
    frame_var, spec_is_absolute, spec_join_workdir, Context, Var, VarKind,
};
use crate::error::Error;
use crate::op::Outcome;

verus! {

/// The working directory for command and path resolution, as published in
/// a context frame.
#[derive(Debug, Clone)]
pub struct WorkDir(pub String);

impl WorkDir {
    /// The frame variable carrying this directory.
    pub fn to_var(self) -> (r: Var)
        ensures
            r == Var::WorkDir(self.0),
    {
        Var::WorkDir(self.0)
    }
}

/// The `set-workdir` operation: resolves its path against the context and
/// publishes it as the working directory of the current frame.
#[derive(Debug, Clone)]
pub struct SetWorkDir(pub String);

impl SetWorkDir {
    /// The directory this operation will set: its path joined per the
    /// working-directory rules.
    pub fn resolve(&self, ctx: &Context) -> (r: String)
        requires
            ctx.wf(),
        ensures
            r@ == spec_join_workdir(ctx.frames@, self.0@),
            spec_is_absolute(r@),
    {
        ctx.join_workdir(self.0.as_str())
    }

    /// Publishes the resolved directory in the top frame and succeeds, or
    /// rejects the operation when the runtime found no directory at the
    /// target. The context is untouched on rejection.
    pub fn publish(&self, ctx: &mut Context, target_is_dir: bool) -> (r: Result<Outcome, Error>)
        requires
            old(ctx).wf(),
        ensures
            final(ctx).wf(),
            target_is_dir ==> {
                &&& r == Ok::<Outcome, Error>(Outcome::Success)
                &&& frame_var(final(ctx).frames@.last(), VarKind::WorkDir) matches Some(
                    Var::WorkDir(w),
                ) && w@ == spec_join_workdir(old(ctx).frames@, self.0@)
            },
            !target_is_dir ==> ((r matches Err(Error::Path(_))) && *final(ctx) == *old(ctx)),
    {
        let dir = self.resolve(ctx);
        if !target_is_dir {
            let mut msg = dir;
            msg.append(" is not a valid path to a directory (or it is inaccessible)");
            return Err(Error::Path(msg));
        }
        ctx.insert_top_var(WorkDir(dir).to_var());
        proof {
            let fs = ctx.frames@;
            let ofs = old(ctx).frames@;
            assert(fs[0].kind is Root) by {
                if fs.len() > 1 {
                    assert(fs[0] == ofs[0]);
                }
            }
            assert(fs[0].workdir is Some) by {
                if fs.len() == 1 {
                    assert(fs.last() == fs[0]);
                } else {
                    assert(fs[0] == ofs[0]);
                }
            }
            assert forall|i: int|
                0 <= i < fs.len() implies (#[trigger] fs[i].workdir matches Some(w)
                    ==> spec_is_absolute(w@)) by {
                if i < fs.len() - 1 {
                    assert(fs[i] == ofs[i]);
                } else {
                    assert(fs[i] == fs.last());
                }
            }
            assert forall|i: int| 1 <= i < fs.len() implies !(#[trigger] fs[i].kind is Root) by {
                if i < fs.len() - 1 {
                    assert(fs[i] == ofs[i]);
                } else {
                    assert(fs[i] == fs.last());
                    assert(fs.last().kind == ofs.last().kind);
                }
            }
        }
        Ok(Outcome::Success)
    }
}

} // verus!
