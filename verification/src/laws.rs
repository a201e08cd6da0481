//! What holds of every orchestration run, proved of the state machine in
//! [`crate::session`].

use vstd::prelude::*;

use crate::artifacts::artifacts_for;
use crate::errors::ErrorModel;
use crate::session::{
    action_of, actions_along, is_subprocess, next, run, state_at, step_command, step_desc,
    ActionModel, Event, PhaseModel, SessionModel, StepKind,
};

verus! {

/// A finished session — done or failed — never moves again, whatever events
/// still arrive.
pub proof fn lemma_terminal_absorbing(m: SessionModel, evs: Seq<Event>, j: int, i: int)
    requires
        0 <= j <= i,
        state_at(m, evs, j).phase is Done || state_at(m, evs, j).phase is Failed,
    ensures
        state_at(m, evs, i) == state_at(m, evs, j),
    decreases i - j,
{
    if i > j {
        lemma_terminal_absorbing(m, evs, j, i - 1);
        assert(state_at(m, evs, i) =~= state_at(m, evs, i - 1));
    }
}

/// An event only ever moves the phase: the directory layout and the resolved
/// configuration command of a session never change.
pub proof fn lemma_layout_stable(m: SessionModel, evs: Seq<Event>, i: int)
    requires
        0 <= i,
    ensures
        state_at(m, evs, i) == (SessionModel { phase: state_at(m, evs, i).phase, ..m }),
    decreases i,
{
    if i > 0 {
        lemma_layout_stable(m, evs, i - 1);
        assert(state_at(m, evs, i) =~= (SessionModel { phase: state_at(m, evs, i).phase, ..m }));
    }
}

/// With the install directory already present and no rebuild forced, the
/// session finishes at once with the descriptor for that directory, and no
/// state of the run — first or later — asks for a subprocess.
pub proof fn lemma_existing_install_short_circuits(m: SessionModel, evs: Seq<Event>)
    requires
        m.phase is ProbeInstall,
        !m.is_force,
        evs.len() > 0,
        evs[0] == Event::DirExists(true),
    ensures
        state_at(m, evs, 1).phase is Done,
        action_of(state_at(m, evs, 1)) == (ActionModel::Finish {
            artifacts: artifacts_for(m.install_dir),
        }),
        forall|i: int| 0 <= i <= evs.len() ==> !is_subprocess(#[trigger] actions_along(m, evs)[i]),
{
    assert(state_at(m, evs, 0) == m);
    assert(state_at(m, evs, 1) == next(m, evs[0]));
    assert forall|i: int| 0 <= i <= evs.len() implies !is_subprocess(
        #[trigger] actions_along(m, evs)[i],
    ) by {
        if i >= 1 {
            lemma_terminal_absorbing(m, evs, 1, i);
        }
    }
}

/// A non-zero exit from any external step fails the run at once: the failure
/// carries that step's description, its command and its exit code, and no
/// later state asks for a subprocess — subsequent steps never run.
pub proof fn lemma_step_failure_aborts(m: SessionModel, evs: Seq<Event>, k: StepKind, c: i32)
    requires
        m.phase == PhaseModel::RunStep(k),
        evs.len() > 0,
        evs[0] == Event::Exited(c),
        c != 0,
    ensures
        forall|i: int|
            1 <= i <= evs.len() ==> #[trigger] state_at(m, evs, i).phase == PhaseModel::Failed(
                ErrorModel::BuildFailure {
                    step: step_desc(k),
                    command: step_command(m, k),
                    exit_code: c,
                },
            ),
        forall|i: int| 1 <= i <= evs.len() ==> !is_subprocess(#[trigger] actions_along(m, evs)[i]),
{
    assert(state_at(m, evs, 0) == m);
    assert(state_at(m, evs, 1) == next(m, evs[0]));
    assert forall|i: int| 1 <= i <= evs.len() implies #[trigger] state_at(m, evs, i).phase
        == PhaseModel::Failed(
        ErrorModel::BuildFailure { step: step_desc(k), command: step_command(m, k), exit_code: c },
    ) && !is_subprocess(actions_along(m, evs)[i]) by {
        lemma_terminal_absorbing(m, evs, 1, i);
    }
}

/// The events of a run on a fresh output root in which every external
/// operation succeeds: no install directory, no stale build directory, and
/// every filesystem operation and external step reports success.
pub open spec fn fresh_success_events() -> Seq<Event> {
    seq![
        Event::DirExists(false),
        Event::DirExists(false),
        Event::FsOk,
        Event::FsOk,
        Event::Exited(0),
        Event::Exited(0),
        Event::Exited(0),
        Event::Exited(0),
        Event::Exited(0),
        Event::FsOk,
    ]
}

/// Every action of a full run on a fresh output root, in order: probe both
/// directories, create and fill the scratch work directory, the five
/// external steps, the removal of the scratch directory, and the finish.
pub open spec fn full_fresh_actions(m: SessionModel) -> Seq<ActionModel> {
    seq![
        ActionModel::ProbeDir { path: m.install_dir },
        ActionModel::ProbeDir { path: m.build_dir },
        ActionModel::CreateDirAll { path: m.work_dir },
        ActionModel::CopyTree { source: m.source_dir, dest: m.work_dir },
        ActionModel::Run { step: step_desc(StepKind::Chmod), command: step_command(m, StepKind::Chmod) },
        ActionModel::Run {
            step: step_desc(StepKind::Configure),
            command: step_command(m, StepKind::Configure),
        },
        ActionModel::Run { step: step_desc(StepKind::Depend), command: step_command(m, StepKind::Depend) },
        ActionModel::Run { step: step_desc(StepKind::Build), command: step_command(m, StepKind::Build) },
        ActionModel::Run {
            step: step_desc(StepKind::Install),
            command: step_command(m, StepKind::Install),
        },
        ActionModel::RemoveDirAll { path: m.work_dir },
        ActionModel::Finish { artifacts: artifacts_for(m.install_dir) },
    ]
}

/// On a fresh output root, a run in which every external operation succeeds
/// asks for exactly the full sequence — configure through install — and ends
/// done, with the scratch work directory removed before the finish.
pub proof fn lemma_fresh_run_full_sequence(m: SessionModel)
    requires
        m.phase is ProbeInstall,
    ensures
        run(m, fresh_success_events()).phase is Done,
        actions_along(m, fresh_success_events()) == full_fresh_actions(m),
{
    let evs = fresh_success_events();
    let m1 = next(m, evs[0]);
    let m2 = next(m1, evs[1]);
    let m3 = next(m2, evs[2]);
    let m4 = next(m3, evs[3]);
    let m5 = next(m4, evs[4]);
    let m6 = next(m5, evs[5]);
    let m7 = next(m6, evs[6]);
    let m8 = next(m7, evs[7]);
    let m9 = next(m8, evs[8]);
    let m10 = next(m9, evs[9]);
    assert(state_at(m, evs, 0) == m);
    assert(state_at(m, evs, 1) == m1);
    assert(state_at(m, evs, 2) == m2);
    assert(state_at(m, evs, 3) == m3);
    assert(state_at(m, evs, 4) == m4);
    assert(state_at(m, evs, 5) == m5);
    assert(state_at(m, evs, 6) == m6);
    assert(state_at(m, evs, 7) == m7);
    assert(state_at(m, evs, 8) == m8);
    assert(state_at(m, evs, 9) == m9);
    assert(state_at(m, evs, 10) == m10);
    assert(actions_along(m, evs) =~= full_fresh_actions(m));
}

/// The events of a forced rebuild over an existing install in which every
/// external operation succeeds: the stale install is found and removed, and
/// the run then proceeds as on a fresh root.
pub open spec fn forced_success_events() -> Seq<Event> {
    seq![
        Event::DirExists(true),
        Event::FsOk,
        Event::DirExists(false),
        Event::FsOk,
        Event::FsOk,
        Event::Exited(0),
        Event::Exited(0),
        Event::Exited(0),
        Event::Exited(0),
        Event::Exited(0),
        Event::FsOk,
    ]
}

/// Every action of a forced rebuild over an existing install, in order: the
/// stale install directory is removed first, and the full sequence follows.
pub open spec fn full_forced_actions(m: SessionModel) -> Seq<ActionModel> {
    seq![
        ActionModel::ProbeDir { path: m.install_dir },
        ActionModel::RemoveDirAll { path: m.install_dir },
    ] + full_fresh_actions(m).drop_first()
}

/// With the install directory already present and a rebuild forced, the run
/// removes the stale install directory and then asks for the full sequence
/// again, ending done.
pub proof fn lemma_forced_rebuild_runs_again(m: SessionModel)
    requires
        m.phase is ProbeInstall,
        m.is_force,
    ensures
        run(m, forced_success_events()).phase is Done,
        actions_along(m, forced_success_events()) == full_forced_actions(m),
{
    let evs = forced_success_events();
    let m1 = next(m, evs[0]);
    let m2 = next(m1, evs[1]);
    let m3 = next(m2, evs[2]);
    let m4 = next(m3, evs[3]);
    let m5 = next(m4, evs[4]);
    let m6 = next(m5, evs[5]);
    let m7 = next(m6, evs[6]);
    let m8 = next(m7, evs[7]);
    let m9 = next(m8, evs[8]);
    let m10 = next(m9, evs[9]);
    let m11 = next(m10, evs[10]);
    assert(state_at(m, evs, 0) == m);
    assert(state_at(m, evs, 1) == m1);
    assert(state_at(m, evs, 2) == m2);
    assert(state_at(m, evs, 3) == m3);
    assert(state_at(m, evs, 4) == m4);
    assert(state_at(m, evs, 5) == m5);
    assert(state_at(m, evs, 6) == m6);
    assert(state_at(m, evs, 7) == m7);
    assert(state_at(m, evs, 8) == m8);
    assert(state_at(m, evs, 9) == m9);
    assert(state_at(m, evs, 10) == m10);
    assert(state_at(m, evs, 11) == m11);
    assert(actions_along(m, evs) =~= full_forced_actions(m));
}

} // verus!
