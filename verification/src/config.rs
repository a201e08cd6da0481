//! Platform selection: which operating-system family hosts the build, which
//! target platforms are supported there, and the exact configuration command
//! each one gets.

use vstd::prelude::*;
use vstd::string::StringExecFns;

use crate::command::{CommandModel, CommandSpec};

verus! {

/// The operating-system family the build runs on. Each family gets its own
/// form of the configuration command.
#[derive(Clone, Copy, PartialEq, Eq, Structural)]
pub enum HostOs {
    Linux,
    MacOs,
}

/// The static lookup table from a Darwin target triple to the native build
/// system's platform identifier.
pub open spec fn darwin_platform_of(target: Seq<char>) -> Option<Seq<char>> {
    if target == "aarch64-apple-darwin"@ {
        Option::Some("darwin64-arm64-cc"@)
    } else if target == "i686-apple-darwin"@ {
        Option::Some("darwin-i386-cc"@)
    } else if target == "x86_64-apple-darwin"@ {
        Option::Some("darwin64-x86_64-cc"@)
    } else {
        Option::None
    }
}

/// Whether a target platform has a configuration mapping on the given host.
/// On Linux the native `config` script detects the platform itself; on macOS
/// the target must appear in the static table.
pub open spec fn supported_target(host: HostOs, target: Seq<char>) -> bool {
    match host {
        HostOs::Linux => true,
        HostOs::MacOs => darwin_platform_of(target) is Some,
    }
}

/// The install-prefix argument handed to the configuration command.
pub open spec fn prefix_arg(install_dir: Seq<char>) -> Seq<char> {
    "--prefix="@ + install_dir
}

/// The platform-appropriate configuration command, run inside `work_dir`:
/// on Linux the auto-detecting `config` script with position-independent
/// code and dynamic linking disabled, on macOS the `Configure` script with
/// the platform identifier the static table assigns to `target`.
pub open spec fn configure_command(
    host: HostOs,
    install_dir: Seq<char>,
    target: Seq<char>,
    work_dir: Seq<char>,
) -> CommandModel {
    match host {
        HostOs::Linux => CommandModel {
            program: "sh"@,
            args: seq!["./config"@, prefix_arg(install_dir), "-DOPENSSL_PIC"@, "no-shared"@],
            current_dir: work_dir,
        },
        HostOs::MacOs => CommandModel {
            program: "sh"@,
            args: seq![
                "./Configure"@,
                prefix_arg(install_dir),
                darwin_platform_of(target).unwrap(),
            ],
            current_dir: work_dir,
        },
    }
}

/// Looks `target` up in the Darwin platform table.
pub fn resolve_darwin_platform(target: &str) -> (r: Option<String>)
    ensures
        r is Some <==> darwin_platform_of(target@) is Some,
        r matches Some(p) ==> Option::Some(p@) == darwin_platform_of(target@),
{
    let t = target.to_owned();
    if t == "aarch64-apple-darwin".to_owned() {
        Option::Some("darwin64-arm64-cc".to_owned())
    } else if t == "i686-apple-darwin".to_owned() {
        Option::Some("darwin-i386-cc".to_owned())
    } else if t == "x86_64-apple-darwin".to_owned() {
        Option::Some("darwin64-x86_64-cc".to_owned())
    } else {
        Option::None
    }
}

/// Builds the platform-appropriate configuration command, or reports which
/// target had no mapping.
pub fn get_configure_command(
    host: HostOs,
    install_dir: &str,
    target: &str,
    work_dir: &str,
) -> (r: Result<CommandSpec, String>)
    ensures
        r is Ok <==> supported_target(host, target@),
        r matches Ok(c) ==> c@ == configure_command(host, install_dir@, target@, work_dir@),
        r matches Err(t) ==> t@ == target@,
{
    let mut prefix = "--prefix=".to_owned();
    prefix.append(install_dir);
    match host {
        HostOs::Linux => {
            let mut args: Vec<String> = Vec::new();
            args.push("./config".to_owned());
            args.push(prefix);
            args.push("-DOPENSSL_PIC".to_owned());
            args.push("no-shared".to_owned());
            let c = CommandSpec {
                program: "sh".to_owned(),
                args,
                current_dir: work_dir.to_owned(),
            };
            proof {
                assert(c@ =~~= configure_command(host, install_dir@, target@, work_dir@));
            }
            Result::Ok(c)
        },
        HostOs::MacOs => {
            match resolve_darwin_platform(target) {
                Option::Some(platform) => {
                    let mut args: Vec<String> = Vec::new();
                    args.push("./Configure".to_owned());
                    args.push(prefix);
                    args.push(platform);
                    let c = CommandSpec {
                        program: "sh".to_owned(),
                        args,
                        current_dir: work_dir.to_owned(),
                    };
                    proof {
                        assert(c@ =~~= configure_command(host, install_dir@, target@, work_dir@));
                    }
                    Result::Ok(c)
                },
                Option::None => Result::Err(target.to_owned()),
            }
        },
    }
}

} // verus!
