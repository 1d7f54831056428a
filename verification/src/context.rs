//! The execution context: an owned stack of frames, each carrying scoped
//! variables, plus the closest-variable lookup and the working-directory
//! path rules.

use vstd::prelude::*;
use vstd::string::*;

verus! {

/// A handle to the reload fan-out of the nearest running dev server. The
/// runtime resolves the identifier to the live server.
#[derive(Debug, Clone, Copy, PartialEq, Eq, Structural)]
pub struct Reloader(pub u64);

/// A scoped variable. A frame holds at most one variable of each kind.
#[derive(Debug, Clone)]
pub enum Var {
    /// Directory against which relative paths and commands resolve.
    WorkDir(String),
    /// Published by an `http` operation for nested `reload` operations.
    Reloader(Reloader),
    /// Published by a `watch` operation so nested `on-change` operations can
    /// tell a startup run from a change-triggered run.
    TriggeredByChange(bool),
}

/// Selects one of the three variable kinds for lookup.
#[derive(Debug, Clone, Copy, PartialEq, Eq, Structural)]
pub enum VarKind {
    WorkDir,
    Reloader,
    TriggeredByChange,
}

/// The kind of a variable value.
pub open spec fn var_kind(v: Var) -> VarKind {
    match v {
        Var::WorkDir(_) => VarKind::WorkDir,
        Var::Reloader(_) => VarKind::Reloader,
        Var::TriggeredByChange(_) => VarKind::TriggeredByChange,
    }
}

/// The kind of context frame.
#[derive(Debug)]
pub enum FrameKind {
    Root,
    Task { name: String },
    Operation { name: String },
}

/// One frame of the context stack: its kind and its scoped variables.
#[derive(Debug)]
pub struct Frame {
    pub kind: FrameKind,
    pub workdir: Option<String>,
    pub reloader: Option<Reloader>,
    pub triggered_by_change: Option<bool>,
}

/// The variable of the given kind held by this single frame, if any.
pub open spec fn frame_var(f: Frame, k: VarKind) -> Option<Var> {
    match k {
        VarKind::WorkDir => match f.workdir {
            Some(w) => Some(Var::WorkDir(w)),
            None => None,
        },
        VarKind::Reloader => match f.reloader {
            Some(r) => Some(Var::Reloader(r)),
            None => None,
        },
        VarKind::TriggeredByChange => match f.triggered_by_change {
            Some(b) => Some(Var::TriggeredByChange(b)),
            None => None,
        },
    }
}

impl Frame {
    /// A fresh frame of the given kind, with no variables.
    pub fn new(kind: FrameKind) -> (r: Frame)
        ensures
            r.kind == kind,
            r.workdir is None,
            r.reloader is None,
            r.triggered_by_change is None,
    {
        Frame { kind, workdir: None, reloader: None, triggered_by_change: None }
    }

    /// The root frame of every context stack.
    pub fn root() -> (r: Frame)
        ensures
            r.kind is Root,
            r.workdir is None,
            r.reloader is None,
            r.triggered_by_change is None,
    {
        Frame::new(FrameKind::Root)
    }

    /// Sets a variable in this frame, replacing and returning any previous
    /// value of the same kind. Variables of other kinds are untouched.
    pub fn insert_var(&mut self, val: Var) -> (prev: Option<Var>)
        ensures
            prev == frame_var(*old(self), var_kind(val)),
            frame_var(*final(self), var_kind(val)) == Some(val),
            forall|k: VarKind| k != var_kind(val) ==> frame_var(*final(self), k) == frame_var(
                *old(self),
                k,
            ),
            final(self).kind == old(self).kind,
    {
        match val {
            Var::WorkDir(w) => {
                let prev = self.workdir.take();
                self.workdir = Some(w);
                match prev {
                    Some(p) => Some(Var::WorkDir(p)),
                    None => None,
                }
            },
            Var::Reloader(r) => {
                let prev = self.reloader.take();
                self.reloader = Some(r);
                match prev {
                    Some(p) => Some(Var::Reloader(p)),
                    None => None,
                }
            },
            Var::TriggeredByChange(b) => {
                let prev = self.triggered_by_change.take();
                self.triggered_by_change = Some(b);
                match prev {
                    Some(p) => Some(Var::TriggeredByChange(p)),
                    None => None,
                }
            },
        }
    }

    /// The variable of the given kind held by this frame alone.
    pub fn get_var(&self, kind: VarKind) -> (r: Option<Var>)
        ensures
            r == frame_var(*self, kind),
    {
        match kind {
            VarKind::WorkDir => match &self.workdir {
                Some(w) => Some(Var::WorkDir(w.clone())),
                None => None,
            },
            VarKind::Reloader => match &self.reloader {
                Some(r) => Some(Var::Reloader(*r)),
                None => None,
            },
            VarKind::TriggeredByChange => match &self.triggered_by_change {
                Some(b) => Some(Var::TriggeredByChange(*b)),
                None => None,
            },
        }
    }

    /// An exact copy of this frame.
    pub fn duplicate(&self) -> (r: Frame)
        ensures
            r == *self,
    {
        Frame {
            kind: match &self.kind {
                FrameKind::Root => FrameKind::Root,
                FrameKind::Task { name } => FrameKind::Task { name: name.clone() },
                FrameKind::Operation { name } => FrameKind::Operation { name: name.clone() },
            },
            workdir: match &self.workdir {
                Some(w) => Some(w.clone()),
                None => None,
            },
            reloader: self.reloader,
            triggered_by_change: self.triggered_by_change,
        }
    }
}

// ===== Path rules ==========================================================

/// A path is absolute when it starts with a separator.
pub open spec fn spec_is_absolute(p: Seq<char>) -> bool {
    p.len() > 0 && p[0] == '/'
}

/// A path written relative to the current directory: `./rest`.
pub open spec fn spec_starts_dot(p: Seq<char>) -> bool {
    p.len() >= 2 && p[0] == '.' && p[1] == '/'
}

/// Joining a relative path onto a base directory.
pub open spec fn spec_join(base: Seq<char>, p: Seq<char>) -> Seq<char> {
    if base.len() > 0 && base[base.len() - 1] == '/' {
        base + p
    } else {
        base + seq!['/'] + p
    }
}

/// Whether the first characters of `p` spell an absolute path.
pub fn is_absolute_path(p: &str) -> (r: bool)
    ensures
        r == spec_is_absolute(p@),
{
    let n = p.unicode_len();
    n > 0 && p.get_char(0) == '/'
}

/// Whether `p` is written relative to the current directory (`./rest`).
pub fn starts_with_dot_slash(p: &str) -> (r: bool)
    ensures
        r == spec_starts_dot(p@),
{
    let n = p.unicode_len();
    n >= 2 && p.get_char(0) == '.' && p.get_char(1) == '/'
}

/// Joins `p` onto the directory `base`.
pub fn join_path(base: &str, p: &str) -> (r: String)
    ensures
        r@ == spec_join(base@, p@),
{
    proof {
        reveal_strlit("/");
        assert("/"@ =~= seq!['/']);
    }
    let n = base.unicode_len();
    let mut out = String::from_str(base);
    if !(n > 0 && base.get_char(n - 1) == '/') {
        out.append("/");
    }
    out.append(p);
    proof {
        assert(out@ =~= spec_join(base@, p@));
    }
    out
}

/// An absolute base joined with anything stays absolute.
pub proof fn lemma_join_preserves_absolute(base: Seq<char>, p: Seq<char>)
    requires
        spec_is_absolute(base),
    ensures
        spec_is_absolute(spec_join(base, p)),
{
}

// ===== Context =============================================================

/// The execution context: the stack of frames that led to the current
/// execution. The first frame is the root; the last is the top.
#[derive(Debug)]
pub struct Context {
    pub frames: Vec<Frame>,
}

/// The variable of kind `k` in the frame closest to the top of the stack.
pub open spec fn closest_var(frames: Seq<Frame>, k: VarKind) -> Option<Var>
    decreases frames.len(),
{
    if frames.len() == 0 {
        None
    } else if frame_var(frames.last(), k) is Some {
        frame_var(frames.last(), k)
    } else {
        closest_var(frames.drop_last(), k)
    }
}

/// The closest working directory, unwrapped.
pub open spec fn spec_closest_workdir(frames: Seq<Frame>) -> Seq<char> {
    match closest_var(frames, VarKind::WorkDir) {
        Some(Var::WorkDir(w)) => w@,
        _ => Seq::empty(),
    }
}

/// The working directory of the root frame (the configuration file's
/// directory), unwrapped.
pub open spec fn spec_root_workdir(frames: Seq<Frame>) -> Seq<char> {
    match frames[0].workdir {
        Some(w) => w@,
        None => Seq::empty(),
    }
}

/// The three working-directory rules in one place: an absolute path stands,
/// `./rest` joins the closest working directory, anything else joins the
/// root working directory.
pub open spec fn spec_join_workdir(frames: Seq<Frame>, p: Seq<char>) -> Seq<char> {
    if spec_is_absolute(p) {
        p
    } else if spec_starts_dot(p) {
        spec_join(spec_closest_workdir(frames), p.skip(2))
    } else {
        spec_join(spec_root_workdir(frames), p)
    }
}

impl Context {
    /// The stack is well formed: it starts at a root frame that carries a
    /// working directory, no other frame is a root, and every working
    /// directory stored anywhere is absolute.
    pub open spec fn wf(self) -> bool {
        &&& self.frames.len() >= 1
        &&& self.frames[0].kind is Root
        &&& forall|i: int| 1 <= i < self.frames.len() ==> !(#[trigger] self.frames[i].kind
            is Root)
        &&& self.frames[0].workdir is Some
        &&& forall|i: int|
            0 <= i < self.frames.len() ==> (#[trigger] self.frames[i].workdir matches Some(w)
                ==> spec_is_absolute(w@))
    }

    /// A fresh context: a single root frame whose working directory is the
    /// directory of the configuration file.
    pub fn new(config_dir: String) -> (r: Context)
        requires
            spec_is_absolute(config_dir@),
        ensures
            r.wf(),
            r.frames@.len() == 1,
            r.frames[0].workdir == Some(config_dir),
            closest_var(r.frames@, VarKind::Reloader) is None,
            closest_var(r.frames@, VarKind::TriggeredByChange) is None,
            spec_root_workdir(r.frames@) == config_dir@,
            spec_closest_workdir(r.frames@) == config_dir@,
    {
        let mut root = Frame::root();
        root.insert_var(Var::WorkDir(config_dir));
        let mut frames: Vec<Frame> = Vec::new();
        frames.push(root);
        let r = Context { frames };
        proof {
            assert(r.frames@.last() == r.frames@[0]);
            assert(r.frames@.drop_last() =~= Seq::<Frame>::empty());
            assert(closest_var(Seq::<Frame>::empty(), VarKind::Reloader) is None);
            assert(closest_var(Seq::<Frame>::empty(), VarKind::TriggeredByChange) is None);
            assert(frame_var(r.frames@[0], VarKind::Reloader) is None);
            assert(frame_var(r.frames@[0], VarKind::TriggeredByChange) is None);
        }
        r
    }

    /// The variable of the given kind from the closest frame that holds one,
    /// walking from the top of the stack towards the root.
    pub fn get_closest_var(&self, kind: VarKind) -> (r: Option<Var>)
        ensures
            r == closest_var(self.frames@, kind),
    {
        let n = self.frames.len();
        proof {
            assert(self.frames@.take(n as int) =~= self.frames@);
        }
        let mut i = n;
        while i > 0
            invariant
                i <= n,
                n == self.frames@.len(),
                closest_var(self.frames@, kind) == closest_var(self.frames@.take(i as int), kind),
            decreases i,
        {
            i = i - 1;
            let found = self.frames[i].get_var(kind);
            proof {
                assert(self.frames@.take(i + 1).last() == self.frames@[i as int]);
                assert(self.frames@.take(i + 1).drop_last() =~= self.frames@.take(i as int));
            }
            if found.is_some() {
                return found;
            }
        }
        proof {
            assert(self.frames@.take(0) =~= Seq::<Frame>::empty());
        }
        None
    }

    /// The root frame of the stack.
    pub fn root_frame(&self) -> (r: &Frame)
        requires
            self.frames@.len() >= 1,
        ensures
            *r == self.frames@[0],
    {
        &self.frames[0]
    }

    /// The variable of the given kind held by the root frame.
    pub fn get_root_var(&self, kind: VarKind) -> (r: Option<Var>)
        requires
            self.frames@.len() >= 1,
        ensures
            r == frame_var(self.frames[0], kind),
    {
        self.frames[0].get_var(kind)
    }

    /// Sets a variable in the top frame.
    pub fn insert_top_var(&mut self, val: Var) -> (prev: Option<Var>)
        requires
            old(self).frames@.len() >= 1,
        ensures
            final(self).frames@.len() == old(self).frames@.len(),
            prev == frame_var(old(self).frames@.last(), var_kind(val)),
            frame_var(final(self).frames@.last(), var_kind(val)) == Some(val),
            forall|k: VarKind| k != var_kind(val) ==> frame_var(final(self).frames@.last(), k)
                == frame_var(old(self).frames@.last(), k),
            final(self).frames@.last().kind == old(self).frames@.last().kind,
            forall|i: int|
                0 <= i < final(self).frames@.len() - 1 ==> #[trigger] final(self).frames@[i] == old(
                    self,
                ).frames@[i],
    {
        let n = self.frames.len();
        let f = &mut self.frames[n - 1];
        f.insert_var(val)
    }

    /// The closest working directory. Under `wf` the root always holds one.
    pub fn workdir(&self) -> (r: String)
        requires
            self.wf(),
        ensures
            r@ == spec_closest_workdir(self.frames@),
            spec_is_absolute(r@),
    {
        proof {
            lemma_closest_workdir_exists_and_absolute(self.frames@);
        }
        let v = self.get_closest_var(VarKind::WorkDir);
        match v {
            Some(Var::WorkDir(w)) => w,
            _ => String::new(),
        }
    }

    /// Joins `new_path` with the working-directory context:
    /// - an absolute path is returned as it is;
    /// - `./rest` is joined onto the closest working directory;
    /// - anything else is joined onto the root working directory (the
    ///   configuration file's directory).
    ///
    /// The result is always absolute.
    pub fn join_workdir(&self, new_path: &str) -> (r: String)
        requires
            self.wf(),
        ensures
            spec_is_absolute(new_path@) ==> r@ == new_path@,
            !spec_is_absolute(new_path@) && spec_starts_dot(new_path@) ==> r@ == spec_join(
                spec_closest_workdir(self.frames@),
                new_path@.skip(2),
            ),
            !spec_is_absolute(new_path@) && !spec_starts_dot(new_path@) ==> r@ == spec_join(
                spec_root_workdir(self.frames@),
                new_path@,
            ),
            r@ == spec_join_workdir(self.frames@, new_path@),
            spec_is_absolute(r@),
    {
        proof {
            lemma_closest_workdir_exists_and_absolute(self.frames@);
        }
        if is_absolute_path(new_path) {
            String::from_str(new_path)
        } else if starts_with_dot_slash(new_path) {
            let n = new_path.unicode_len();
            let rest = new_path.substring_char(2, n);
            let base = self.workdir();
            join_path(base.as_str(), rest)
        } else {
            let root_wd = self.get_root_var(VarKind::WorkDir);
            match root_wd {
                Some(Var::WorkDir(w)) => join_path(w.as_str(), new_path),
                _ => String::new(),  // excluded by wf
            }
        }
    }

    /// An exact copy of the frame stack.
    fn duplicate_frames(&self) -> (r: Vec<Frame>)
        ensures
            r@ == self.frames@,
    {
        let n = self.frames.len();
        let mut out: Vec<Frame> = Vec::new();
        let mut i: usize = 0;
        while i < n
            invariant
                i <= n,
                n == self.frames@.len(),
                out@ == self.frames@.take(i as int),
            decreases n - i,
        {
            out.push(self.frames[i].duplicate());
            proof {
                assert(out@ =~= self.frames@.take(i + 1));
            }
            i = i + 1;
        }
        proof {
            assert(self.frames@.take(n as int) =~= self.frames@);
        }
        out
    }

    /// A new context with a task frame of the given name on top.
    pub fn fork_task(&self, name: &str) -> (r: Context)
        requires
            self.wf(),
        ensures
            r.wf(),
            r.frames@.len() == self.frames@.len() + 1,
            r.frames@.drop_last() == self.frames@,
            r.frames@.last().kind matches FrameKind::Task { name: n } && n@ == name@,
            frame_var(r.frames@.last(), VarKind::WorkDir) is None,
            frame_var(r.frames@.last(), VarKind::Reloader) is None,
            frame_var(r.frames@.last(), VarKind::TriggeredByChange) is None,
    {
        let mut frames = self.duplicate_frames();
        frames.push(Frame::new(FrameKind::Task { name: String::from_str(name) }));
        let r = Context { frames };
        proof {
            assert(r.frames@.drop_last() =~= self.frames@);
        }
        r
    }

    /// A new context with an operation frame of the given keyword on top.
    pub fn fork_op(&self, name: &str) -> (r: Context)
        requires
            self.wf(),
        ensures
            r.wf(),
            r.frames@.len() == self.frames@.len() + 1,
            r.frames@.drop_last() == self.frames@,
            r.frames@.last().kind matches FrameKind::Operation { name: n } && n@ == name@,
            frame_var(r.frames@.last(), VarKind::WorkDir) is None,
            frame_var(r.frames@.last(), VarKind::Reloader) is None,
            frame_var(r.frames@.last(), VarKind::TriggeredByChange) is None,
    {
        let mut frames = self.duplicate_frames();
        frames.push(Frame::new(FrameKind::Operation { name: String::from_str(name) }));
        let r = Context { frames };
        proof {
            assert(r.frames@.drop_last() =~= self.frames@);
        }
        r
    }
}

/// The label used for terminal messages: the closest task's name, with the
/// keywords of the operation frames above it appended, separated by dots.
pub open spec fn spec_frame_label(frames: Seq<Frame>) -> Seq<char>
    decreases frames.len(),
{
    if frames.len() == 0 {
        Seq::empty()
    } else {
        match frames.last().kind {
            FrameKind::Root => Seq::empty(),
            FrameKind::Task { name } => name@,
            FrameKind::Operation { name } => spec_frame_label(frames.drop_last()) + seq!['.']
                + name@,
        }
    }
}

impl Context {
    /// The label of the stack up to (excluding) index `k`.
    fn label_prefix(&self, k: usize) -> (r: String)
        requires
            k <= self.frames@.len(),
        ensures
            r@ == spec_frame_label(self.frames@.take(k as int)),
        decreases k,
    {
        if k == 0 {
            proof {
                assert(self.frames@.take(0) =~= Seq::<Frame>::empty());
            }
            String::new()
        } else {
            proof {
                assert(self.frames@.take(k as int).last() == self.frames@[k - 1]);
                assert(self.frames@.take(k as int).drop_last() =~= self.frames@.take(k - 1));
            }
            match &self.frames[k - 1].kind {
                FrameKind::Root => String::new(),
                FrameKind::Task { name } => name.clone(),
                FrameKind::Operation { name } => {
                    proof {
                        reveal_strlit(".");
                        assert("."@ =~= seq!['.']);
                    }
                    let mut out = self.label_prefix(k - 1);
                    out.append(".");
                    out.append(name.as_str());
                    proof {
                        assert(out@ =~= spec_frame_label(self.frames@.take(k as int)));
                    }
                    out
                },
            }
        }
    }

    /// The label used for terminal messages: the closest task's name,
    /// extended with the keywords of the operation frames stacked above it.
    pub fn frame_label(&self) -> (r: String)
        ensures
            r@ == spec_frame_label(self.frames@),
    {
        let n = self.frames.len();
        let r = self.label_prefix(n);
        proof {
            assert(self.frames@.take(n as int) =~= self.frames@);
        }
        r
    }
}

/// Under `wf`, a working directory is always found and it is absolute.
pub proof fn lemma_closest_workdir_exists_and_absolute(frames: Seq<Frame>)
    requires
        frames.len() >= 1,
        frames[0].workdir is Some,
        forall|i: int|
            0 <= i < frames.len() ==> (#[trigger] frames[i].workdir matches Some(w)
                ==> spec_is_absolute(w@)),
    ensures
        closest_var(frames, VarKind::WorkDir) matches Some(Var::WorkDir(w)) && spec_is_absolute(
            w@,
        ),
        spec_is_absolute(spec_closest_workdir(frames)),
    decreases frames.len(),
{
    if frame_var(frames.last(), VarKind::WorkDir) is Some {
    } else {
        lemma_closest_workdir_exists_and_absolute(frames.drop_last());
    }
}

/// A lookup only ever returns a variable of the kind asked for.
pub proof fn lemma_closest_var_kind(frames: Seq<Frame>, k: VarKind)
    ensures
        closest_var(frames, k) matches Some(v) ==> var_kind(v) == k,
    decreases frames.len(),
{
    if frames.len() > 0 {
        lemma_closest_var_kind(frames.drop_last(), k);
    }
}

// ===== Laws of variable lookup =============================================

/// Closest value wins: if the top frame holds a variable of kind `k`, the
/// lookup returns that value, whatever the frames below hold.
pub proof fn lemma_closest_var_shadowing(frames: Seq<Frame>, k: VarKind)
    requires
        frames.len() >= 1,
        frame_var(frames.last(), k) is Some,
    ensures
        closest_var(frames, k) == frame_var(frames.last(), k),
{
}

/// A variable set only in a child frame is invisible to the parent stack:
/// if the top frame does not hold a variable of kind `k`, the lookup falls
/// through to the stack below, so the parent's own lookup is unchanged by
/// pushing the child frame.
pub proof fn lemma_child_var_invisible_to_parent(parent: Seq<Frame>, child: Frame, k: VarKind)
    requires
        frame_var(child, k) is None,
    ensures
        closest_var(parent.push(child), k) == closest_var(parent, k),
{
    assert(parent.push(child).last() == child);
    assert(parent.push(child).drop_last() =~= parent);
}

} // verus!
