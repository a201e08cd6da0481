//! The public entry point: lay out the directories under the caller's output
//! root, resolve the target platform, and open the orchestration session.

use vstd::prelude::*;

use crate::config::{configure_command, get_configure_command, supported_target, HostOs};
use crate::errors::{BuildError, ErrorModel};
use crate::paths::{join_path, spec_join};
use crate::session::{BuildSession, PhaseModel, SessionModel};

verus! {

/// Holds the directory layout and target for one orchestration run.
pub struct Builder {
    build_dir: String,
    install_dir: String,
    target: String,
    is_force: bool,
}

/// The mathematical image of a [`Builder`].
#[verifier::ext_equal]
pub struct BuilderModel {
    pub build_dir: Seq<char>,
    pub install_dir: Seq<char>,
    pub target: Seq<char>,
    pub is_force: bool,
}

impl View for Builder {
    type V = BuilderModel;

    closed spec fn view(&self) -> BuilderModel {
        BuilderModel {
            build_dir: self.build_dir@,
            install_dir: self.install_dir@,
            target: self.target@,
            is_force: self.is_force,
        }
    }
}

/// The directory everything of one run lives under.
pub open spec fn base_dir_of(out_dir: Seq<char>) -> Seq<char> {
    spec_join(out_dir, "tassl-build"@)
}

/// The scratch directory the source tree is copied into and built in.
pub open spec fn work_dir_of(build_dir: Seq<char>) -> Seq<char> {
    spec_join(build_dir, "src"@)
}

/// The session a builder opens: everything at its start, the configuration
/// command already resolved, and the first question still to ask.
pub open spec fn initial_session(b: BuilderModel, host: HostOs, source_dir: Seq<char>) -> SessionModel {
    SessionModel {
        build_dir: b.build_dir,
        install_dir: b.install_dir,
        work_dir: work_dir_of(b.build_dir),
        source_dir,
        configure: configure_command(host, b.install_dir, b.target, work_dir_of(b.build_dir)),
        is_force: b.is_force,
        phase: PhaseModel::ProbeInstall,
    }
}

impl Builder {
    /// Lays the build and install directories out under `out_dir`, for the
    /// given target platform. With `is_force` an existing install is thrown
    /// away and rebuilt; without it, it is reused.
    pub fn new(out_dir: &str, target: &str, is_force: bool) -> (r: Builder)
        ensures
            r@ == (BuilderModel {
                build_dir: spec_join(base_dir_of(out_dir@), "build"@),
                install_dir: spec_join(base_dir_of(out_dir@), "install"@),
                target: target@,
                is_force,
            }),
    {
        let base_dir = join_path(out_dir, "tassl-build");
        Builder {
            build_dir: join_path(base_dir.as_str(), "build"),
            install_dir: join_path(base_dir.as_str(), "install"),
            target: target.to_owned(),
            is_force,
        }
    }

    /// Opens the orchestration session for this builder, with the vendored
    /// source tree at `source_dir` and the build hosted on `host`. A target
    /// with no configuration mapping on that host is refused here, before
    /// any subprocess is asked for.
    pub fn build(&self, host: HostOs, source_dir: &str) -> (r: Result<BuildSession, BuildError>)
        ensures
            r is Ok <==> supported_target(host, self@.target),
            r matches Ok(s) ==> s@ == initial_session(self@, host, source_dir@),
            r matches Err(e) ==> e@ == (ErrorModel::UnsupportedTarget { target: self@.target }),
    {
        let work_dir = join_path(self.build_dir.as_str(), "src");
        match get_configure_command(
            host,
            self.install_dir.as_str(),
            self.target.as_str(),
            work_dir.as_str(),
        ) {
            Result::Ok(configure) => {
                let s = BuildSession::open(
                    self.build_dir.clone(),
                    self.install_dir.clone(),
                    work_dir,
                    source_dir.to_owned(),
                    configure,
                    self.is_force,
                );
                proof {
                    assert(s@ =~~= initial_session(self@, host, source_dir@));
                }
                Result::Ok(s)
            },
            Result::Err(target) => Result::Err(BuildError::UnsupportedTarget { target }),
        }
    }
}

} // verus!
