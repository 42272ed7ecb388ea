use vstd::prelude::*;
use crate::layout::{
    OutputDir, OutputError, WritePlan, join_path, joined, params_file, params_file_path, plan_made,
    run_dir, run_output_dir,
};
use crate::params::ParamsError;
use crate::resolver::ResolveError;
use crate::status::Status;

verus! {

/// The pending step of a deployment run; `Done` ends it. Steps only move
/// forward.
#[derive(Debug, Clone, Copy, PartialEq, Eq, Structural)]
pub enum Stage {
    /// Do `<cwd>/programs` and the program directory exist?
    CheckLayout,
    /// Resolve the environment's configuration and make it the active one.
    ResolveConfig,
    /// Read and parse the descriptor file that was handed in.
    ReadDescriptor,
    /// Read the environment's parameter file.
    ReadParams,
    /// Build the descriptor from the parameters.
    BuildDescriptor,
    /// Does the output directory exist? (before the raw snapshot)
    CheckRawDir,
    /// Carry out the plan for the raw snapshot.
    WriteRaw,
    /// Deploy the descriptor.
    Deploy,
    /// Does the output directory exist? (before the success snapshot)
    CheckSuccessDir,
    /// Carry out the plan for the success snapshot.
    WriteSuccess,
    /// Show the success summary.
    ShowSummary,
    /// Does the output directory exist? (before the debug snapshot)
    CheckFailDir,
    /// Carry out the plan for the debug snapshot.
    WriteFail,
    Done,
}

#[derive(Debug, Clone, Copy, PartialEq, Eq, Structural)]
pub enum LayoutError {
    /// No `programs` directory where the run was started.
    MissingProgramsDir,
    /// No directory for the program.
    MissingProgram,
}

/// What came of reading the parameter file.
#[derive(Debug)]
pub enum ParamsLoad {
    Missing,
    Malformed(String),
    Loaded,
}

/// What came of the pending step.
#[derive(Debug)]
pub enum PipelineEvent {
    LayoutChecked { programs_dir: bool, program_dir: bool },
    ConfigResolved(Result<(), ResolveError>),
    DescriptorRead(Result<(), String>),
    ParamsRead(ParamsLoad),
    DescriptorBuilt(Result<(), ParamsError>),
    OutputDirChecked(bool),
    ArtifactWritten(Result<(), String>),
    Deployed(Result<(), String>),
    SummaryShown,
}

#[derive(Debug)]
pub enum PipelineError {
    WorkspaceLayout(LayoutError),
    Resolve(ResolveError),
    Params(ParamsError),
    DescriptorParse(String),
    /// The engine refused the deployment; carries its message.
    Deploy(String),
    Io(String),
    Output(OutputError),
    /// An event arrived that does not answer the pending step.
    UnexpectedEvent,
}

/// The progress of a run.
pub ghost struct RunState {
    pub stage: Stage,
    pub failure: Option<PipelineError>,
    pub deploy_error: Option<String>,
}

pub open spec fn to(s: RunState, stage: Stage) -> RunState {
    RunState { stage, ..s }
}

pub open spec fn stop(s: RunState, e: PipelineError) -> RunState {
    RunState { stage: Stage::Done, failure: Some(e), ..s }
}

/// The state after `e` answers the pending step of `s`, in a run for
/// environment `env` that was or was not handed a descriptor file.
pub open spec fn advance(s: RunState, env: String, has_descriptor: bool, e: PipelineEvent) -> RunState {
    match (s.stage, e) {
        (Stage::Done, _) => s,
        (Stage::CheckLayout, PipelineEvent::LayoutChecked { programs_dir, program_dir }) => {
            if !programs_dir {
                stop(s, PipelineError::WorkspaceLayout(LayoutError::MissingProgramsDir))
            } else if !program_dir {
                stop(s, PipelineError::WorkspaceLayout(LayoutError::MissingProgram))
            } else {
                to(s, Stage::ResolveConfig)
            }
        },
        (Stage::ResolveConfig, PipelineEvent::ConfigResolved(r)) => match r {
            Ok(_) => to(s, if has_descriptor { Stage::ReadDescriptor } else { Stage::ReadParams }),
            Err(err) => stop(s, PipelineError::Resolve(err)),
        },
        (Stage::ReadDescriptor, PipelineEvent::DescriptorRead(r)) => match r {
            Ok(_) => to(s, Stage::CheckRawDir),
            Err(m) => stop(s, PipelineError::DescriptorParse(m)),
        },
        (Stage::ReadParams, PipelineEvent::ParamsRead(load)) => match load {
            ParamsLoad::Missing => stop(s, PipelineError::Params(ParamsError::NotFound(env))),
            ParamsLoad::Malformed(m) => stop(s, PipelineError::Params(ParamsError::Malformed(m))),
            ParamsLoad::Loaded => to(s, Stage::BuildDescriptor),
        },
        (Stage::BuildDescriptor, PipelineEvent::DescriptorBuilt(r)) => match r {
            Ok(_) => to(s, Stage::CheckRawDir),
            Err(err) => stop(s, PipelineError::Params(err)),
        },
        (Stage::CheckRawDir, PipelineEvent::OutputDirChecked(_)) => to(s, Stage::WriteRaw),
        (Stage::WriteRaw, PipelineEvent::ArtifactWritten(r)) => match r {
            Ok(_) => to(s, Stage::Deploy),
            Err(m) => stop(s, PipelineError::Io(m)),
        },
        (Stage::Deploy, PipelineEvent::Deployed(r)) => match r {
            Ok(_) => to(s, Stage::CheckSuccessDir),
            Err(m) => RunState { stage: Stage::CheckFailDir, deploy_error: Some(m), ..s },
        },
        (Stage::CheckSuccessDir, PipelineEvent::OutputDirChecked(_)) => to(s, Stage::WriteSuccess),
        (Stage::WriteSuccess, PipelineEvent::ArtifactWritten(r)) => match r {
            Ok(_) => to(s, Stage::ShowSummary),
            Err(m) => stop(s, PipelineError::Io(m)),
        },
        (Stage::ShowSummary, PipelineEvent::SummaryShown) => to(s, Stage::Done),
        (Stage::CheckFailDir, PipelineEvent::OutputDirChecked(_)) => to(s, Stage::WriteFail),
        (Stage::WriteFail, PipelineEvent::ArtifactWritten(r)) => match (r, s.deploy_error) {
            (Ok(_), Some(m)) => stop(s, PipelineError::Deploy(m)),
            (Err(m), _) => stop(s, PipelineError::Io(m)),
            (Ok(_), None) => stop(s, PipelineError::UnexpectedEvent),
        },
        _ => stop(s, PipelineError::UnexpectedEvent),
    }
}

/// The snapshot that a step plans: its status and its file-name prefix.
pub open spec fn snapshot_of(stage: Stage) -> Option<(Status, Seq<char>)> {
    match stage {
        Stage::CheckRawDir => Some((Status::Process, "raw"@)),
        Stage::CheckSuccessDir => Some((Status::Success, "instantiated"@)),
        Stage::CheckFailDir => Some((Status::Fail, "debug"@)),
        _ => None,
    }
}

/// How far along a run a step lies.
pub open spec fn stage_rank(stage: Stage) -> int {
    match stage {
        Stage::CheckLayout => 0,
        Stage::ResolveConfig => 1,
        Stage::ReadDescriptor => 2,
        Stage::ReadParams => 3,
        Stage::BuildDescriptor => 4,
        Stage::CheckRawDir => 5,
        Stage::WriteRaw => 6,
        Stage::Deploy => 7,
        Stage::CheckSuccessDir => 8,
        Stage::WriteSuccess => 9,
        Stage::ShowSummary => 10,
        Stage::CheckFailDir => 11,
        Stage::WriteFail => 12,
        Stage::Done => 13,
    }
}

/// One deployment run: the paths it works on, the output directory of the
/// run, and its progress.
#[derive(Debug)]
pub struct Pipeline {
    pub environment: String,
    pub programs_dir: String,
    pub program_dir: String,
    pub descriptor_path: Option<String>,
    pub params_file: String,
    pub output: OutputDir,
    pub plan: Option<WritePlan>,
    pub stage: Stage,
    pub failure: Option<PipelineError>,
    pub deploy_error: Option<String>,
}

impl View for Pipeline {
    type V = RunState;

    open spec fn view(&self) -> RunState {
        RunState { stage: self.stage, failure: self.failure, deploy_error: self.deploy_error }
    }
}

impl Pipeline {
    /// The output directory stays untagged until a terminal snapshot is
    /// planned; a write step always has its plan; a failed deployment's
    /// message is kept until it is reported.
    pub open spec fn wf(&self) -> bool {
        &&& self.output.wf()
        &&& stage_rank(self.stage) <= stage_rank(Stage::CheckSuccessDir) ==> self.output.finished is None
        &&& self.stage == Stage::CheckFailDir ==> self.output.finished is None
        &&& (self.stage == Stage::WriteRaw || self.stage == Stage::WriteSuccess || self.stage
            == Stage::WriteFail) ==> self.plan is Some
        &&& (self.stage == Stage::CheckFailDir || self.stage == Stage::WriteFail)
            ==> self.deploy_error is Some
    }

    pub open spec fn same_setup(&self, other: &Pipeline) -> bool {
        &&& self.environment == other.environment
        &&& self.programs_dir == other.programs_dir
        &&& self.program_dir == other.program_dir
        &&& self.descriptor_path == other.descriptor_path
        &&& self.params_file == other.params_file
    }

    /// A run for `environment` started in `cwd`, on the program at
    /// `program_dir`, stamped `stamp`, with or without a descriptor file.
    pub fn new(
        cwd: &str,
        program_dir: &str,
        environment: &str,
        stamp: &str,
        descriptor_path: Option<String>,
    ) -> (r: Pipeline)
        ensures
            r.wf(),
            r.stage == Stage::CheckLayout,
            r.failure is None,
            r.deploy_error is None,
            r.plan is None,
            r.environment@ == environment@,
            r.programs_dir@ == joined(cwd@, "programs"@),
            r.program_dir@ == program_dir@,
            r.descriptor_path == descriptor_path,
            r.params_file@ == params_file(program_dir@, environment@),
            r.output.base@ == run_dir(program_dir@, environment@, stamp@),
            r.output.current@ == r.output.base@,
            r.output.finished is None,
    {
        let base = run_output_dir(program_dir, environment, stamp);
        Pipeline {
            environment: String::from_str(environment),
            programs_dir: join_path(cwd, "programs"),
            program_dir: String::from_str(program_dir),
            descriptor_path,
            params_file: params_file_path(program_dir, environment),
            output: OutputDir::new(base),
            plan: None,
            stage: Stage::CheckLayout,
            failure: None,
            deploy_error: None,
        }
    }

    fn stop(&mut self, e: PipelineError)
        ensures
            final(self).same_setup(old(self)),
            final(self).output == old(self).output,
            final(self).plan == old(self).plan,
            final(self)@ == stop(old(self)@, e),
    {
        self.stage = Stage::Done;
        self.failure = Some(e);
    }

    fn plan_snapshot(&mut self, dir_exists: bool, status: Status, prefix: &str, next: Stage)
        requires
            old(self).output.wf(),
            old(self).output.finished is None,
        ensures
            final(self).same_setup(old(self)),
            final(self).failure == old(self).failure,
            final(self).deploy_error == old(self).deploy_error,
            final(self).stage == next,
            final(self).output.wf(),
            final(self).plan matches Some(p) && plan_made(
                old(self).output,
                dir_exists,
                status,
                prefix@,
                Ok(p),
                final(self).output,
            ),
    {
        let r = self.output.plan_write(dir_exists, status, prefix);
        match r {
            Ok(p) => {
                self.plan = Some(p);
                self.stage = next;
            },
            Err(_) => {
                assert(false);
            },
        }
    }

    /// Takes in what came of the pending step. The output directory changes
    /// only where a snapshot is planned: the raw snapshot with `Process`, the
    /// success snapshot with `Success`, the debug snapshot with `Fail`.
    pub fn advance(&mut self, event: PipelineEvent)
        requires
            old(self).wf(),
        ensures
            final(self).wf(),
            final(self).same_setup(old(self)),
            final(self)@ == advance(
                old(self)@,
                old(self).environment,
                old(self).descriptor_path is Some,
                event,
            ),
            match (snapshot_of(old(self).stage), event) {
                (Some(shot), PipelineEvent::OutputDirChecked(b)) => final(self).plan matches Some(p)
                    && plan_made(old(self).output, b, shot.0, shot.1, Ok(p), final(self).output),
                _ => final(self).output == old(self).output && final(self).plan == old(self).plan,
            },
    {
        if self.stage == Stage::Done {
            return;
        }
        match event {
            PipelineEvent::LayoutChecked {
                programs_dir,
                program_dir,
            } if self.stage == Stage::CheckLayout => {
                if !programs_dir {
                    self.stop(PipelineError::WorkspaceLayout(LayoutError::MissingProgramsDir));
                } else if !program_dir {
                    self.stop(PipelineError::WorkspaceLayout(LayoutError::MissingProgram));
                } else {
                    self.stage = Stage::ResolveConfig;
                }
            },
            PipelineEvent::ConfigResolved(r) if self.stage == Stage::ResolveConfig => match r {
                Ok(_) => {
                    self.stage = if self.descriptor_path.is_some() {
                        Stage::ReadDescriptor
                    } else {
                        Stage::ReadParams
                    };
                },
                Err(e) => self.stop(PipelineError::Resolve(e)),
            },
            PipelineEvent::DescriptorRead(r) if self.stage == Stage::ReadDescriptor => match r {
                Ok(_) => self.stage = Stage::CheckRawDir,
                Err(m) => self.stop(PipelineError::DescriptorParse(m)),
            },
            PipelineEvent::ParamsRead(load) if self.stage == Stage::ReadParams => match load {
                ParamsLoad::Missing => {
                    let env = self.environment.clone();
                    self.stop(PipelineError::Params(ParamsError::NotFound(env)));
                },
                ParamsLoad::Malformed(m) => self.stop(PipelineError::Params(ParamsError::Malformed(m))),
                ParamsLoad::Loaded => self.stage = Stage::BuildDescriptor,
            },
            PipelineEvent::DescriptorBuilt(r) if self.stage == Stage::BuildDescriptor => match r {
                Ok(_) => self.stage = Stage::CheckRawDir,
                Err(e) => self.stop(PipelineError::Params(e)),
            },
            PipelineEvent::OutputDirChecked(b) if self.stage == Stage::CheckRawDir => {
                self.plan_snapshot(b, Status::Process, "raw", Stage::WriteRaw);
            },
            PipelineEvent::ArtifactWritten(r) if self.stage == Stage::WriteRaw => match r {
                Ok(_) => self.stage = Stage::Deploy,
                Err(m) => self.stop(PipelineError::Io(m)),
            },
            PipelineEvent::Deployed(r) if self.stage == Stage::Deploy => match r {
                Ok(_) => self.stage = Stage::CheckSuccessDir,
                Err(m) => {
                    self.deploy_error = Some(m);
                    self.stage = Stage::CheckFailDir;
                },
            },
            PipelineEvent::OutputDirChecked(b) if self.stage == Stage::CheckSuccessDir => {
                self.plan_snapshot(b, Status::Success, "instantiated", Stage::WriteSuccess);
            },
            PipelineEvent::ArtifactWritten(r) if self.stage == Stage::WriteSuccess => match r {
                Ok(_) => self.stage = Stage::ShowSummary,
                Err(m) => self.stop(PipelineError::Io(m)),
            },
            PipelineEvent::SummaryShown if self.stage == Stage::ShowSummary => {
                self.stage = Stage::Done;
            },
            PipelineEvent::OutputDirChecked(b) if self.stage == Stage::CheckFailDir => {
                self.plan_snapshot(b, Status::Fail, "debug", Stage::WriteFail);
            },
            PipelineEvent::ArtifactWritten(r) if self.stage == Stage::WriteFail => match r {
                Ok(_) => match &self.deploy_error {
                    Some(m) => {
                        let m = m.clone();
                        self.stop(PipelineError::Deploy(m));
                    },
                    None => self.stop(PipelineError::UnexpectedEvent),
                },
                Err(m) => self.stop(PipelineError::Io(m)),
            },
            _ => self.stop(PipelineError::UnexpectedEvent),
        }
    }

    /// The outcome of a finished run, or `None` while it is under way.
    pub fn finish(self) -> (r: Option<Result<(), PipelineError>>)
        ensures
            self.stage != Stage::Done ==> r is None,
            self.stage == Stage::Done ==> r == Some(match self.failure {
                Some(e) => Err::<(), PipelineError>(e),
                None => Ok(()),
            }),
    {
        if self.stage != Stage::Done {
            return None;
        }
        match self.failure {
            Some(e) => Some(Err(e)),
            None => Some(Ok(())),
        }
    }
}

/// A run never goes back: every event moves an unfinished run to a later step.
pub proof fn stages_only_move_forward(s: RunState, env: String, has_descriptor: bool, e: PipelineEvent)
    requires
        s.stage != Stage::Done,
    ensures
        stage_rank(advance(s, env, has_descriptor, e).stage) > stage_rank(s.stage),
{
}

/// A failure before the raw snapshot ends the run at once, so no snapshot
/// is planned or written for it.
pub proof fn early_failure_is_silent(s: RunState, env: String, has_descriptor: bool, e: PipelineEvent)
    requires
        stage_rank(s.stage) < stage_rank(Stage::WriteRaw),
        s.failure is None,
        advance(s, env, has_descriptor, e).failure is Some,
    ensures
        advance(s, env, has_descriptor, e).stage == Stage::Done,
{
}

/// A refused deployment is reported with the engine's own message, and only
/// after the debug snapshot has been planned and written.
pub proof fn failed_deploy_reported_after_debug_snapshot(
    s: RunState,
    env: String,
    has_descriptor: bool,
    m: String,
    dir_exists: bool,
)
    requires
        s.stage == Stage::Deploy,
        s.failure is None,
    ensures
        ({
            let s1 = advance(s, env, has_descriptor, PipelineEvent::Deployed(Err(m)));
            let s2 = advance(s1, env, has_descriptor, PipelineEvent::OutputDirChecked(dir_exists));
            let s3 = advance(s2, env, has_descriptor, PipelineEvent::ArtifactWritten(Ok(())));
            &&& s1.stage == Stage::CheckFailDir && s1.failure is None
            &&& s2.stage == Stage::WriteFail && s2.failure is None
            &&& s3.stage == Stage::Done
            &&& s3.failure == Some(PipelineError::Deploy(m))
        }),
{
}

/// A deployment that succeeds ends the run without a failure once its
/// success snapshot is written and its summary shown.
pub proof fn successful_deploy_finishes_cleanly(
    s: RunState,
    env: String,
    has_descriptor: bool,
    dir_exists: bool,
)
    requires
        s.stage == Stage::Deploy,
        s.failure is None,
    ensures
        ({
            let s1 = advance(s, env, has_descriptor, PipelineEvent::Deployed(Ok(())));
            let s2 = advance(s1, env, has_descriptor, PipelineEvent::OutputDirChecked(dir_exists));
            let s3 = advance(s2, env, has_descriptor, PipelineEvent::ArtifactWritten(Ok(())));
            let s4 = advance(s3, env, has_descriptor, PipelineEvent::SummaryShown);
            &&& s1.stage == Stage::CheckSuccessDir
            &&& s2.stage == Stage::WriteSuccess
            &&& s3.stage == Stage::ShowSummary
            &&& s4.stage == Stage::Done && s4.failure is None
        }),
{
}

} // verus!
