use tassl_build::builder::Builder;
use tassl_build::config::HostOs;
use tassl_build::errors::BuildError;
use tassl_build::session::{Action, BuildSession, Event};

fn open_linux(out_dir: &str, is_force: bool) -> BuildSession {
    let b = Builder::new(out_dir, "x86_64-unknown-linux-gnu", is_force);
    match b.build(HostOs::Linux, "/repo/TASSL") {
        Ok(s) => s,
        Err(_) => panic!("a Linux host supports every target"),
    }
}

fn expect_probe(s: &BuildSession, expected: &str) {
    match s.next_action() {
        Action::ProbeDir { path } => assert_eq!(path, expected),
        _ => panic!("expected a directory probe"),
    }
}

#[test]
fn first_question_is_the_install_dir() {
    let s = open_linux("/out", false);
    expect_probe(&s, "/out/tassl-build/install");
}

#[test]
fn existing_install_short_circuits() {
    let mut s = open_linux("/out", false);
    s.handle(Event::DirExists(true));
    match s.next_action() {
        Action::Finish { artifacts } => {
            assert_eq!(artifacts.include_dir, "/out/tassl-build/install/include");
            assert_eq!(artifacts.lib_dir, "/out/tassl-build/install/lib");
            assert_eq!(artifacts.bin_dir, "/out/tassl-build/install/bin");
            assert_eq!(artifacts.libs, vec!["ssl".to_string(), "crypto".to_string()]);
        }
        _ => panic!("an existing install must finish the run at once"),
    }
}

#[test]
fn forced_rebuild_removes_the_stale_install() {
    let mut s = open_linux("/out", true);
    s.handle(Event::DirExists(true));
    match s.next_action() {
        Action::RemoveDirAll { path } => assert_eq!(path, "/out/tassl-build/install"),
        _ => panic!("a forced rebuild must remove the stale install"),
    }
    s.handle(Event::FsOk);
    expect_probe(&s, "/out/tassl-build/build");
}

#[test]
fn fresh_run_asks_for_the_full_sequence() {
    let mut s = open_linux("/out", false);
    let work = "/out/tassl-build/build/src";

    expect_probe(&s, "/out/tassl-build/install");
    s.handle(Event::DirExists(false));
    expect_probe(&s, "/out/tassl-build/build");
    s.handle(Event::DirExists(false));
    match s.next_action() {
        Action::CreateDirAll { path } => assert_eq!(path, work),
        _ => panic!("expected the work directory creation"),
    }
    s.handle(Event::FsOk);
    match s.next_action() {
        Action::CopyTree { source, dest } => {
            assert_eq!(source, "/repo/TASSL");
            assert_eq!(dest, work);
        }
        _ => panic!("expected the source copy"),
    }
    s.handle(Event::FsOk);

    let expected = [
        ("change TASSL util permission", "chmod", vec!["-R", "a+x", "./util"]),
        (
            "configuring TASSL",
            "sh",
            vec!["./config", "--prefix=/out/tassl-build/install", "-DOPENSSL_PIC", "no-shared"],
        ),
        ("generating TASSL dependencies", "make", vec!["depend"]),
        ("building TASSL", "make", vec![]),
        ("installing TASSL", "make", vec!["install"]),
    ];
    for (desc, program, args) in expected.iter() {
        match s.next_action() {
            Action::Run { step, command } => {
                assert_eq!(step, *desc);
                assert_eq!(command.program, *program);
                assert_eq!(command.args, *args);
                assert_eq!(command.current_dir, work);
            }
            _ => panic!("expected an external step"),
        }
        s.handle(Event::Exited(0));
    }

    match s.next_action() {
        Action::RemoveDirAll { path } => assert_eq!(path, work),
        _ => panic!("the scratch work directory must be removed after the steps"),
    }
    s.handle(Event::FsOk);
    match s.next_action() {
        Action::Finish { artifacts } => {
            assert_eq!(artifacts.lib_dir, "/out/tassl-build/install/lib");
        }
        _ => panic!("a successful run must finish"),
    }
}

#[test]
fn darwin_targets_map_through_the_table() {
    let cases = [
        ("aarch64-apple-darwin", "darwin64-arm64-cc"),
        ("i686-apple-darwin", "darwin-i386-cc"),
        ("x86_64-apple-darwin", "darwin64-x86_64-cc"),
    ];
    for (target, platform) in cases.iter() {
        let b = Builder::new("/out", target, false);
        let mut s = match b.build(HostOs::MacOs, "/repo/TASSL") {
            Ok(s) => s,
            Err(_) => panic!("{} is in the table", target),
        };
        s.handle(Event::DirExists(false));
        s.handle(Event::DirExists(false));
        s.handle(Event::FsOk);
        s.handle(Event::FsOk);
        s.handle(Event::Exited(0));
        match s.next_action() {
            Action::Run { step, command } => {
                assert_eq!(step, "configuring TASSL");
                assert_eq!(command.program, "sh");
                assert_eq!(
                    command.args,
                    vec!["./Configure", "--prefix=/out/tassl-build/install", *platform],
                );
            }
            _ => panic!("expected the configuration step"),
        }
    }
}

#[test]
fn unrecognized_target_is_refused_before_any_subprocess() {
    let b = Builder::new("/out", "x86_64-unknown-linux-gnu", false);
    match b.build(HostOs::MacOs, "/repo/TASSL") {
        Err(BuildError::UnsupportedTarget { target }) => {
            assert_eq!(target, "x86_64-unknown-linux-gnu");
        }
        _ => panic!("an unmapped target must be refused"),
    }
}

#[test]
fn nonzero_exit_fails_with_that_step() {
    let mut s = open_linux("/out", false);
    s.handle(Event::DirExists(false));
    s.handle(Event::DirExists(false));
    s.handle(Event::FsOk);
    s.handle(Event::FsOk);
    s.handle(Event::Exited(0));
    s.handle(Event::Exited(2));
    match s.next_action() {
        Action::Fail { error } => match error {
            BuildError::BuildFailure { step, command, exit_code } => {
                assert_eq!(step, "configuring TASSL");
                assert_eq!(command.program, "sh");
                assert_eq!(exit_code, 2);
            }
            _ => panic!("a non-zero exit is a build failure"),
        },
        _ => panic!("the run must be failed"),
    }
    s.handle(Event::Exited(0));
    assert!(matches!(s.next_action(), Action::Fail { .. }));
}

#[test]
fn filesystem_failure_is_fatal() {
    let mut s = open_linux("/out", false);
    s.handle(Event::DirExists(false));
    s.handle(Event::DirExists(false));
    s.handle(Event::FsErr);
    match s.next_action() {
        Action::Fail { error } => match error {
            BuildError::FilesystemFailure { operation, path } => {
                assert_eq!(operation, "creating the work directory");
                assert_eq!(path, "/out/tassl-build/build/src");
            }
            _ => panic!("a filesystem fault is a filesystem failure"),
        },
        _ => panic!("the run must be failed"),
    }
}
