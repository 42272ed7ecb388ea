use vstd::prelude::*;
use crate::status::{Status, status_label};

verus! {

/// `dir/name`.
pub open spec fn joined(dir: Seq<char>, name: Seq<char>) -> Seq<char> {
    dir + seq!['/'] + name
}

/// `<prefix>-program-config.json`.
pub open spec fn artifact_name(prefix: Seq<char>) -> Seq<char> {
    prefix + "-program-config.json"@
}

/// `<workspace>/output/<environment>-<stamp>`: the directory of one run.
pub open spec fn run_dir(workspace: Seq<char>, env: Seq<char>, stamp: Seq<char>) -> Seq<char> {
    joined(joined(workspace, "output"@), env + seq!['-'] + stamp)
}

/// `<dir>-<status>`: a run directory tagged with its outcome.
pub open spec fn tagged_dir(dir: Seq<char>, status: Status) -> Seq<char> {
    dir + seq!['-'] + status_label(status)
}

/// `<program>/program_params/<environment>.toml`.
pub open spec fn params_file(program_dir: Seq<char>, env: Seq<char>) -> Seq<char> {
    joined(joined(program_dir, "program_params"@), env + ".toml"@)
}

pub fn join_path(dir: &str, name: &str) -> (r: String)
    ensures
        r@ == joined(dir@, name@),
{
    proof {
        reveal_strlit("/");
    }
    String::from_str(dir).concat("/").concat(name)
}

pub fn artifact_file_name(prefix: &str) -> (r: String)
    ensures
        r@ == artifact_name(prefix@),
{
    String::from_str(prefix).concat("-program-config.json")
}

pub fn run_output_dir(workspace: &str, env: &str, stamp: &str) -> (r: String)
    ensures
        r@ == run_dir(workspace@, env@, stamp@),
{
    proof {
        reveal_strlit("-");
    }
    let out = join_path(workspace, "output");
    let name = String::from_str(env).concat("-").concat(stamp);
    join_path(out.as_str(), name.as_str())
}

pub fn tagged_output_dir(dir: &str, status: Status) -> (r: String)
    ensures
        r@ == tagged_dir(dir@, status),
{
    proof {
        reveal_strlit("-");
    }
    let label = status.label();
    String::from_str(dir).concat("-").concat(label.as_str())
}

pub fn params_file_path(program_dir: &str, env: &str) -> (r: String)
    ensures
        r@ == params_file(program_dir@, env@),
{
    let dir = join_path(program_dir, "program_params");
    let name = String::from_str(env).concat(".toml");
    join_path(dir.as_str(), name.as_str())
}

/// What must happen to the directory before an artifact is written into it.
#[derive(Debug, Clone, Copy, PartialEq, Eq, Structural)]
pub enum DirPrep {
    /// Create `dir` and its parents.
    Create,
    /// Rename `from_dir` to `dir`.
    Rename,
    /// `dir` is in place already.
    Keep,
}

/// One artifact write, decided up front.
#[derive(Debug, Clone)]
pub struct WritePlan {
    pub prep: DirPrep,
    pub from_dir: String,
    pub dir: String,
    pub file_path: String,
}

#[derive(Debug, Clone, Copy, PartialEq, Eq, Structural)]
pub enum OutputError {
    /// A terminal status was already written in this run.
    AlreadyFinished,
}

/// The output directory of one run. It starts untagged; the first terminal
/// write renames it to carry the outcome, and every later write goes there.
#[derive(Debug, Clone)]
pub struct OutputDir {
    pub base: String,
    pub current: String,
    pub finished: Option<Status>,
}

/// What `plan_write` does: from `old`, given whether its directory exists,
/// the plan `r` for a write with `status` and `prefix`, and the directory state `new`.
pub open spec fn plan_made(
    old: OutputDir,
    dir_exists: bool,
    status: Status,
    prefix: Seq<char>,
    r: Result<WritePlan, OutputError>,
    new: OutputDir,
) -> bool {
    &&& new.base == old.base
    &&& old.finished is Some && status.spec_is_terminal() ==> {
        &&& r == Err::<WritePlan, OutputError>(OutputError::AlreadyFinished)
        &&& new == old
    }
    &&& !(old.finished is Some && status.spec_is_terminal()) ==> {
        &&& r is Ok
        &&& !dir_exists ==> r->Ok_0.prep == DirPrep::Create && r->Ok_0.dir@ == old.current@
        &&& dir_exists && status.spec_is_terminal() ==> {
            &&& r->Ok_0.prep == DirPrep::Rename
            &&& r->Ok_0.from_dir@ == old.current@
            &&& r->Ok_0.dir@ == tagged_dir(old.current@, status)
        }
        &&& dir_exists && !status.spec_is_terminal() ==> r->Ok_0.prep == DirPrep::Keep
            && r->Ok_0.dir@ == old.current@
        &&& r->Ok_0.file_path@ == joined(r->Ok_0.dir@, artifact_name(prefix))
        &&& new.current@ == r->Ok_0.dir@
        &&& new.finished == if status.spec_is_terminal() {
            Some(status)
        } else {
            old.finished
        }
    }
}

impl OutputDir {
    pub open spec fn wf(&self) -> bool {
        match self.finished {
            None => self.current@ == self.base@,
            Some(st) => st.spec_is_terminal() && (self.current@ == self.base@
                || self.current@ == tagged_dir(self.base@, st)),
        }
    }

    pub fn new(base: String) -> (r: OutputDir)
        ensures
            r.wf(),
            r.base == base,
            r.current@ == base@,
            r.finished is None,
    {
        let current = base.clone();
        OutputDir { base, current, finished: None }
    }

    /// Plans the write of `<prefix>-program-config.json` with `status`, given
    /// whether the current directory exists. A missing directory is created and
    /// never renamed; an existing one is renamed to carry a terminal status. A
    /// second terminal write in one run is refused.
    pub fn plan_write(&mut self, dir_exists: bool, status: Status, prefix: &str) -> (r: Result<
        WritePlan,
        OutputError,
    >)
        requires
            old(self).wf(),
        ensures
            final(self).wf(),
            plan_made(*old(self), dir_exists, status, prefix@, r, *final(self)),
    {
        let terminal = status.is_terminal();
        if terminal && self.finished.is_some() {
            return Err(OutputError::AlreadyFinished);
        }
        let from_dir = self.current.clone();
        let prep;
        if !dir_exists {
            prep = DirPrep::Create;
        } else if terminal {
            prep = DirPrep::Rename;
            self.current = tagged_output_dir(from_dir.as_str(), status);
        } else {
            prep = DirPrep::Keep;
        }
        if terminal {
            self.finished = Some(status);
        }
        let dir = self.current.clone();
        let name = artifact_file_name(prefix);
        let file_path = join_path(dir.as_str(), name.as_str());
        Ok(WritePlan { prep, from_dir, dir, file_path })
    }
}

/// The first terminal write into an existing, untagged directory renames it
/// to carry the status and puts the artifact in the renamed directory.
pub proof fn terminal_write_renames_base(
    o: OutputDir,
    status: Status,
    prefix: Seq<char>,
    r: Result<WritePlan, OutputError>,
    o2: OutputDir,
)
    requires
        o.wf(),
        o.finished is None,
        status.spec_is_terminal(),
        plan_made(o, true, status, prefix, r, o2),
    ensures
        r matches Ok(p) && p.prep == DirPrep::Rename && p.from_dir@ == o.base@ && p.dir@
            == tagged_dir(o.base@, status) && p.file_path@ == joined(
            tagged_dir(o.base@, status),
            artifact_name(prefix),
        ),
        o2.current@ == tagged_dir(o.base@, status),
        o2.finished == Some(status),
{
}

/// The terminal transition happens once: after it, every terminal write is
/// refused and leaves the directory as it was.
pub proof fn terminal_transition_happens_once(
    o: OutputDir,
    dir_exists: bool,
    status: Status,
    prefix: Seq<char>,
    r: Result<WritePlan, OutputError>,
    o2: OutputDir,
)
    requires
        o.finished is Some,
        status.spec_is_terminal(),
        plan_made(o, dir_exists, status, prefix, r, o2),
    ensures
        r == Err::<WritePlan, OutputError>(OutputError::AlreadyFinished),
        o2 == o,
{
}

} // verus!
