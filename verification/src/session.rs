//! The orchestration itself, as a state machine. A session asks for one
//! [`Action`] at a time; the caller performs it against the filesystem or as
//! a subprocess and reports the outcome as an [`Event`]. Every decision —
//! what runs next, when the run short-circuits, and how a failure is
//! reported — is made here.

use vstd::prelude::*;
use vstd::string::StringExecFns;

use crate::artifacts::{artifacts_for, Artifacts};
use crate::command::{CommandModel, CommandSpec};
use crate::errors::{BuildError, ErrorModel};

verus! {

/// The five external steps of a full run, in the order they run.
#[derive(Clone, Copy, PartialEq, Eq, Structural)]
pub enum StepKind {
    /// Make the native build system's helper scripts executable.
    Chmod,
    /// Run the platform-appropriate configuration command.
    Configure,
    /// Generate the native build system's dependency information.
    Depend,
    /// Build the libraries.
    Build,
    /// Install the built artifacts under the install prefix.
    Install,
}

/// Where a session stands.
pub enum Phase {
    /// About to ask whether the install directory already exists.
    ProbeInstall,
    /// A forced rebuild: the stale install directory is being removed.
    RemoveStaleInstall,
    /// About to ask whether a stale build directory exists.
    ProbeBuild,
    /// A stale build directory is being removed.
    RemoveStaleBuild,
    /// The scratch work directory is being created.
    CreateWorkDir,
    /// The vendored source tree is being copied into the work directory.
    CopySource,
    /// An external step is running.
    RunStep(StepKind),
    /// The scratch work directory is being removed after a successful run.
    Cleanup,
    /// The run succeeded; the artifacts stand under the install directory.
    Done,
    /// The run failed; nothing further will be asked for.
    Failed(BuildError),
}

/// The mathematical image of a [`Phase`].
#[verifier::ext_equal]
pub enum PhaseModel {
    ProbeInstall,
    RemoveStaleInstall,
    ProbeBuild,
    RemoveStaleBuild,
    CreateWorkDir,
    CopySource,
    RunStep(StepKind),
    Cleanup,
    Done,
    Failed(ErrorModel),
}

impl View for Phase {
    type V = PhaseModel;

    open spec fn view(&self) -> PhaseModel {
        match self {
            Phase::ProbeInstall => PhaseModel::ProbeInstall,
            Phase::RemoveStaleInstall => PhaseModel::RemoveStaleInstall,
            Phase::ProbeBuild => PhaseModel::ProbeBuild,
            Phase::RemoveStaleBuild => PhaseModel::RemoveStaleBuild,
            Phase::CreateWorkDir => PhaseModel::CreateWorkDir,
            Phase::CopySource => PhaseModel::CopySource,
            Phase::RunStep(k) => PhaseModel::RunStep(*k),
            Phase::Cleanup => PhaseModel::Cleanup,
            Phase::Done => PhaseModel::Done,
            Phase::Failed(e) => PhaseModel::Failed(e@),
        }
    }
}

/// What the caller reports back after performing an action.
#[derive(Clone, Copy, PartialEq, Eq, Structural)]
pub enum Event {
    /// Whether the probed directory exists.
    DirExists(bool),
    /// The filesystem operation succeeded.
    FsOk,
    /// The filesystem operation failed.
    FsErr,
    /// The external command exited with this status code.
    Exited(i32),
}

/// What the caller is asked to do next.
pub enum Action {
    /// Report whether this directory exists.
    ProbeDir { path: String },
    /// Remove this directory and everything under it.
    RemoveDirAll { path: String },
    /// Create this directory and any missing parents.
    CreateDirAll { path: String },
    /// Copy the source tree into the destination, planning each directory's
    /// entries with [`crate::copy::plan_copy`].
    CopyTree { source: String, dest: String },
    /// Run this external command and report its exit status.
    Run { step: String, command: CommandSpec },
    /// The run succeeded: these are the artifacts. Nothing more to do.
    Finish { artifacts: Artifacts },
    /// The run failed for this reason. Nothing more to do.
    Fail { error: BuildError },
}

/// The mathematical image of an [`Action`].
#[verifier::ext_equal]
pub enum ActionModel {
    ProbeDir { path: Seq<char> },
    RemoveDirAll { path: Seq<char> },
    CreateDirAll { path: Seq<char> },
    CopyTree { source: Seq<char>, dest: Seq<char> },
    Run { step: Seq<char>, command: CommandModel },
    Finish { artifacts: crate::artifacts::ArtifactsModel },
    Fail { error: ErrorModel },
}

impl View for Action {
    type V = ActionModel;

    open spec fn view(&self) -> ActionModel {
        match self {
            Action::ProbeDir { path } => ActionModel::ProbeDir { path: path@ },
            Action::RemoveDirAll { path } => ActionModel::RemoveDirAll { path: path@ },
            Action::CreateDirAll { path } => ActionModel::CreateDirAll { path: path@ },
            Action::CopyTree { source, dest } => ActionModel::CopyTree {
                source: source@,
                dest: dest@,
            },
            Action::Run { step, command } => ActionModel::Run { step: step@, command: command@ },
            Action::Finish { artifacts } => ActionModel::Finish { artifacts: artifacts@ },
            Action::Fail { error } => ActionModel::Fail { error: error@ },
        }
    }
}

/// One orchestration run in progress.
pub struct BuildSession {
    build_dir: String,
    install_dir: String,
    work_dir: String,
    source_dir: String,
    configure: CommandSpec,
    is_force: bool,
    phase: Phase,
}

/// The mathematical image of a [`BuildSession`].
#[verifier::ext_equal]
pub struct SessionModel {
    pub build_dir: Seq<char>,
    pub install_dir: Seq<char>,
    pub work_dir: Seq<char>,
    pub source_dir: Seq<char>,
    pub configure: CommandModel,
    pub is_force: bool,
    pub phase: PhaseModel,
}

impl View for BuildSession {
    type V = SessionModel;

    closed spec fn view(&self) -> SessionModel {
        SessionModel {
            build_dir: self.build_dir@,
            install_dir: self.install_dir@,
            work_dir: self.work_dir@,
            source_dir: self.source_dir@,
            configure: self.configure@,
            is_force: self.is_force,
            phase: self.phase@,
        }
    }
}

/// The description under which an external step is reported.
pub open spec fn step_desc(k: StepKind) -> Seq<char> {
    match k {
        StepKind::Chmod => "change TASSL util permission"@,
        StepKind::Configure => "configuring TASSL"@,
        StepKind::Depend => "generating TASSL dependencies"@,
        StepKind::Build => "building TASSL"@,
        StepKind::Install => "installing TASSL"@,
    }
}

/// The command an external step runs, inside the work directory.
pub open spec fn step_command(m: SessionModel, k: StepKind) -> CommandModel {
    match k {
        StepKind::Chmod => CommandModel {
            program: "chmod"@,
            args: seq!["-R"@, "a+x"@, "./util"@],
            current_dir: m.work_dir,
        },
        StepKind::Configure => m.configure,
        StepKind::Depend => CommandModel {
            program: "make"@,
            args: seq!["depend"@],
            current_dir: m.work_dir,
        },
        StepKind::Build => CommandModel {
            program: "make"@,
            args: Seq::empty(),
            current_dir: m.work_dir,
        },
        StepKind::Install => CommandModel {
            program: "make"@,
            args: seq!["install"@],
            current_dir: m.work_dir,
        },
    }
}

/// The phase after an external step succeeds.
pub open spec fn after_step(k: StepKind) -> PhaseModel {
    match k {
        StepKind::Chmod => PhaseModel::RunStep(StepKind::Configure),
        StepKind::Configure => PhaseModel::RunStep(StepKind::Depend),
        StepKind::Depend => PhaseModel::RunStep(StepKind::Build),
        StepKind::Build => PhaseModel::RunStep(StepKind::Install),
        StepKind::Install => PhaseModel::Cleanup,
    }
}

/// The failure report for a filesystem operation that went wrong.
pub open spec fn fs_failure(operation: Seq<char>, path: Seq<char>) -> ErrorModel {
    ErrorModel::FilesystemFailure { operation, path }
}

/// The phase the session moves to on an event. An event that does not fit
/// the phase changes nothing; once the session is done or failed, nothing
/// moves it again.
pub open spec fn next_phase(m: SessionModel, e: Event) -> PhaseModel {
    match (m.phase, e) {
        (PhaseModel::ProbeInstall, Event::DirExists(b)) => if b && !m.is_force {
            PhaseModel::Done
        } else if b {
            PhaseModel::RemoveStaleInstall
        } else {
            PhaseModel::ProbeBuild
        },
        (PhaseModel::RemoveStaleInstall, Event::FsOk) => PhaseModel::ProbeBuild,
        (PhaseModel::RemoveStaleInstall, Event::FsErr) => PhaseModel::Failed(
            fs_failure("removing the stale install directory"@, m.install_dir),
        ),
        (PhaseModel::ProbeBuild, Event::DirExists(b)) => if b {
            PhaseModel::RemoveStaleBuild
        } else {
            PhaseModel::CreateWorkDir
        },
        (PhaseModel::RemoveStaleBuild, Event::FsOk) => PhaseModel::CreateWorkDir,
        (PhaseModel::RemoveStaleBuild, Event::FsErr) => PhaseModel::Failed(
            fs_failure("removing the stale build directory"@, m.build_dir),
        ),
        (PhaseModel::CreateWorkDir, Event::FsOk) => PhaseModel::CopySource,
        (PhaseModel::CreateWorkDir, Event::FsErr) => PhaseModel::Failed(
            fs_failure("creating the work directory"@, m.work_dir),
        ),
        (PhaseModel::CopySource, Event::FsOk) => PhaseModel::RunStep(StepKind::Chmod),
        (PhaseModel::CopySource, Event::FsErr) => PhaseModel::Failed(
            fs_failure("copying the vendored source tree"@, m.work_dir),
        ),
        (PhaseModel::RunStep(k), Event::Exited(c)) => if c == 0 {
            after_step(k)
        } else {
            PhaseModel::Failed(
                ErrorModel::BuildFailure {
                    step: step_desc(k),
                    command: step_command(m, k),
                    exit_code: c,
                },
            )
        },
        (PhaseModel::Cleanup, Event::FsOk) => PhaseModel::Done,
        (PhaseModel::Cleanup, Event::FsErr) => PhaseModel::Failed(
            fs_failure("removing the work directory"@, m.work_dir),
        ),
        _ => m.phase,
    }
}

/// The whole session after an event: only the phase moves.
pub open spec fn next(m: SessionModel, e: Event) -> SessionModel {
    SessionModel { phase: next_phase(m, e), ..m }
}

/// The action a session in a given state asks for.
pub open spec fn action_of(m: SessionModel) -> ActionModel {
    match m.phase {
        PhaseModel::ProbeInstall => ActionModel::ProbeDir { path: m.install_dir },
        PhaseModel::RemoveStaleInstall => ActionModel::RemoveDirAll { path: m.install_dir },
        PhaseModel::ProbeBuild => ActionModel::ProbeDir { path: m.build_dir },
        PhaseModel::RemoveStaleBuild => ActionModel::RemoveDirAll { path: m.build_dir },
        PhaseModel::CreateWorkDir => ActionModel::CreateDirAll { path: m.work_dir },
        PhaseModel::CopySource => ActionModel::CopyTree {
            source: m.source_dir,
            dest: m.work_dir,
        },
        PhaseModel::RunStep(k) => ActionModel::Run {
            step: step_desc(k),
            command: step_command(m, k),
        },
        PhaseModel::Cleanup => ActionModel::RemoveDirAll { path: m.work_dir },
        PhaseModel::Done => ActionModel::Finish { artifacts: artifacts_for(m.install_dir) },
        PhaseModel::Failed(err) => ActionModel::Fail { error: err },
    }
}

/// The state a session reaches after the first `i` of the events in `evs`.
pub open spec fn state_at(m: SessionModel, evs: Seq<Event>, i: int) -> SessionModel
    decreases i,
{
    if i <= 0 {
        m
    } else {
        next(state_at(m, evs, i - 1), evs[i - 1])
    }
}

/// The state a session reaches after all events of a run.
pub open spec fn run(m: SessionModel, evs: Seq<Event>) -> SessionModel {
    state_at(m, evs, evs.len() as int)
}

/// Every action a session asks for along a run: one per state visited,
/// in order.
pub open spec fn actions_along(m: SessionModel, evs: Seq<Event>) -> Seq<ActionModel> {
    Seq::new(evs.len() + 1, |i: int| action_of(state_at(m, evs, i)))
}

/// Whether an action launches a subprocess.
pub open spec fn is_subprocess(a: ActionModel) -> bool {
    a is Run
}

impl BuildSession {
    /// Opens a session. The caller supplies the directory layout, the
    /// already resolved configuration command, and whether an existing
    /// install is rebuilt or reused.
    pub fn open(
        build_dir: String,
        install_dir: String,
        work_dir: String,
        source_dir: String,
        configure: CommandSpec,
        is_force: bool,
    ) -> (r: BuildSession)
        ensures
            r@ == (SessionModel {
                build_dir: build_dir@,
                install_dir: install_dir@,
                work_dir: work_dir@,
                source_dir: source_dir@,
                configure: configure@,
                is_force,
                phase: PhaseModel::ProbeInstall,
            }),
    {
        BuildSession {
            build_dir,
            install_dir,
            work_dir,
            source_dir,
            configure,
            is_force,
            phase: Phase::ProbeInstall,
        }
    }

    /// The command an external step runs.
    fn command_for(&self, k: StepKind) -> (r: CommandSpec)
        ensures
            r@ == step_command(self@, k),
    {
        let r = match k {
            StepKind::Chmod => {
                let mut args: Vec<String> = Vec::new();
                args.push("-R".to_owned());
                args.push("a+x".to_owned());
                args.push("./util".to_owned());
                CommandSpec {
                    program: "chmod".to_owned(),
                    args,
                    current_dir: self.work_dir.clone(),
                }
            },
            StepKind::Configure => self.configure.duplicate(),
            StepKind::Depend => {
                let mut args: Vec<String> = Vec::new();
                args.push("depend".to_owned());
                CommandSpec {
                    program: "make".to_owned(),
                    args,
                    current_dir: self.work_dir.clone(),
                }
            },
            StepKind::Build => {
                let args: Vec<String> = Vec::new();
                CommandSpec {
                    program: "make".to_owned(),
                    args,
                    current_dir: self.work_dir.clone(),
                }
            },
            StepKind::Install => {
                let mut args: Vec<String> = Vec::new();
                args.push("install".to_owned());
                CommandSpec {
                    program: "make".to_owned(),
                    args,
                    current_dir: self.work_dir.clone(),
                }
            },
        };
        proof {
            assert(r@ =~~= step_command(self@, k));
        }
        r
    }

    /// The description under which an external step is reported.
    fn desc_for(&self, k: StepKind) -> (r: String)
        ensures
            r@ == step_desc(k),
    {
        match k {
            StepKind::Chmod => "change TASSL util permission".to_owned(),
            StepKind::Configure => "configuring TASSL".to_owned(),
            StepKind::Depend => "generating TASSL dependencies".to_owned(),
            StepKind::Build => "building TASSL".to_owned(),
            StepKind::Install => "installing TASSL".to_owned(),
        }
    }

    /// What the caller should do next.
    pub fn next_action(&self) -> (r: Action)
        ensures
            r@ == action_of(self@),
    {
        let r = match &self.phase {
            Phase::ProbeInstall => Action::ProbeDir { path: self.install_dir.clone() },
            Phase::RemoveStaleInstall => Action::RemoveDirAll { path: self.install_dir.clone() },
            Phase::ProbeBuild => Action::ProbeDir { path: self.build_dir.clone() },
            Phase::RemoveStaleBuild => Action::RemoveDirAll { path: self.build_dir.clone() },
            Phase::CreateWorkDir => Action::CreateDirAll { path: self.work_dir.clone() },
            Phase::CopySource => Action::CopyTree {
                source: self.source_dir.clone(),
                dest: self.work_dir.clone(),
            },
            Phase::RunStep(k) => Action::Run { step: self.desc_for(*k), command: self.command_for(*k) },
            Phase::Cleanup => Action::RemoveDirAll { path: self.work_dir.clone() },
            Phase::Done => Action::Finish {
                artifacts: Artifacts::for_install_dir(self.install_dir.as_str()),
            },
            Phase::Failed(err) => Action::Fail { error: err.duplicate() },
        };
        proof {
            assert(r@ =~~= action_of(self@));
        }
        r
    }

    /// Reports the outcome of the last action; the session moves as
    /// [`next`] says.
    pub fn handle(&mut self, e: Event)
        ensures
            final(self)@ == next(old(self)@, e),
    {
        let new_phase = match (&self.phase, e) {
            (Phase::ProbeInstall, Event::DirExists(b)) => {
                if b && !self.is_force {
                    Phase::Done
                } else if b {
                    Phase::RemoveStaleInstall
                } else {
                    Phase::ProbeBuild
                }
            },
            (Phase::RemoveStaleInstall, Event::FsOk) => Phase::ProbeBuild,
            (Phase::RemoveStaleInstall, Event::FsErr) => Phase::Failed(
                BuildError::FilesystemFailure {
                    operation: "removing the stale install directory".to_owned(),
                    path: self.install_dir.clone(),
                },
            ),
            (Phase::ProbeBuild, Event::DirExists(b)) => {
                if b {
                    Phase::RemoveStaleBuild
                } else {
                    Phase::CreateWorkDir
                }
            },
            (Phase::RemoveStaleBuild, Event::FsOk) => Phase::CreateWorkDir,
            (Phase::RemoveStaleBuild, Event::FsErr) => Phase::Failed(
                BuildError::FilesystemFailure {
                    operation: "removing the stale build directory".to_owned(),
                    path: self.build_dir.clone(),
                },
            ),
            (Phase::CreateWorkDir, Event::FsOk) => Phase::CopySource,
            (Phase::CreateWorkDir, Event::FsErr) => Phase::Failed(
                BuildError::FilesystemFailure {
                    operation: "creating the work directory".to_owned(),
                    path: self.work_dir.clone(),
                },
            ),
            (Phase::CopySource, Event::FsOk) => Phase::RunStep(StepKind::Chmod),
            (Phase::CopySource, Event::FsErr) => Phase::Failed(
                BuildError::FilesystemFailure {
                    operation: "copying the vendored source tree".to_owned(),
                    path: self.work_dir.clone(),
                },
            ),
            (Phase::RunStep(k), Event::Exited(c)) => {
                if c == 0 {
                    match k {
                        StepKind::Chmod => Phase::RunStep(StepKind::Configure),
                        StepKind::Configure => Phase::RunStep(StepKind::Depend),
                        StepKind::Depend => Phase::RunStep(StepKind::Build),
                        StepKind::Build => Phase::RunStep(StepKind::Install),
                        StepKind::Install => Phase::Cleanup,
                    }
                } else {
                    Phase::Failed(
                        BuildError::BuildFailure {
                            step: self.desc_for(*k),
                            command: self.command_for(*k),
                            exit_code: c,
                        },
                    )
                }
            },
            (Phase::Cleanup, Event::FsOk) => Phase::Done,
            (Phase::Cleanup, Event::FsErr) => Phase::Failed(
                BuildError::FilesystemFailure {
                    operation: "removing the work directory".to_owned(),
                    path: self.work_dir.clone(),
                },
            ),
            (Phase::Done, _) => Phase::Done,
            (Phase::Failed(err), _) => Phase::Failed(err.duplicate()),
            (Phase::ProbeInstall, _) => Phase::ProbeInstall,
            (Phase::RemoveStaleInstall, _) => Phase::RemoveStaleInstall,
            (Phase::ProbeBuild, _) => Phase::ProbeBuild,
            (Phase::RemoveStaleBuild, _) => Phase::RemoveStaleBuild,
            (Phase::CreateWorkDir, _) => Phase::CreateWorkDir,
            (Phase::CopySource, _) => Phase::CopySource,
            (Phase::RunStep(k), _) => Phase::RunStep(*k),
            (Phase::Cleanup, _) => Phase::Cleanup,
        };
        self.phase = new_phase;
        proof {
            assert(self@ =~~= next(old(self)@, e));
        }
    }
}

} // verus!
