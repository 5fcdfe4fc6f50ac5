//! What the module runs: its subcommands, the `nix develop` invocation of a
//! buildable's development shell, and the script that builds a buildable in it.
use vstd::prelude::*;

use crate::config::{mod_name_path, system_path};
use crate::data::{Buildable, DevModuleData};
use crate::error::DevError;
use crate::text::{same_text, text_of};

verus! {

/// The subcommands of `dev`.
#[derive(Debug, Clone, Copy, PartialEq, Eq, Structural)]
pub enum CliCommand {
    Add,
    Remove,
    List,
    Shell,
    Print,
    /// No subcommand: run the terminal interface.
    Tui,
}

/// The subcommand a (canonical) subcommand name stands for.
pub open spec fn subcommand_spec(name: Seq<char>) -> Option<CliCommand> {
    if name == "add"@ {
        Some(CliCommand::Add)
    } else if name == "remove"@ {
        Some(CliCommand::Remove)
    } else if name == "list"@ {
        Some(CliCommand::List)
    } else if name == "shell"@ {
        Some(CliCommand::Shell)
    } else if name == "print"@ {
        Some(CliCommand::Print)
    } else {
        None
    }
}

impl CliCommand {
    /// The subcommand the command line chose: none runs the interface, an
    /// unknown name is refused.
    pub fn from_subcommand(name: Option<&str>) -> (r: Result<CliCommand, DevError>)
        ensures
            name is None ==> r == Ok::<CliCommand, DevError>(CliCommand::Tui),
            name matches Some(n) ==> (subcommand_spec(n@) matches Some(c) ==> r == Ok::<
                CliCommand,
                DevError,
            >(c)),
            name matches Some(n) ==> (subcommand_spec(n@) is None ==> (r matches Err(e)
                && e matches DevError::UnknownSubcommand(m) && m@ == n@)),
    {
        match name {
            None => Ok(CliCommand::Tui),
            Some(n) => {
                if same_text(n, "add") {
                    Ok(CliCommand::Add)
                } else if same_text(n, "remove") {
                    Ok(CliCommand::Remove)
                } else if same_text(n, "list") {
                    Ok(CliCommand::List)
                } else if same_text(n, "shell") {
                    Ok(CliCommand::Shell)
                } else if same_text(n, "print") {
                    Ok(CliCommand::Print)
                } else {
                    Err(DevError::UnknownSubcommand(text_of(n)))
                }
            },
        }
    }
}

/// The flake output that holds the development shell of module `mod_name`
/// for `target` systems, built on `host`.
pub open spec fn dev_shell_path_spec(
    flake: Seq<char>,
    host: Seq<char>,
    target: Seq<char>,
    mod_name: Seq<char>,
) -> Seq<char> {
    flake + "#packages."@ + host + ".mizeFor."@ + target + ".modules."@ + mod_name
        + ".devShell"@
}

/// The arguments of `nix` that start a development shell: `develop --impure`
/// of the shell's flake output, an override of nixpkgs when one is
/// configured, and an interactive bash.
pub open spec fn dev_shell_args_spec(path: Seq<char>, nixpkgs: Option<Seq<char>>) -> Seq<
    Seq<char>,
> {
    let head = seq!["develop"@, "--impure"@, path];
    let with_override = match nixpkgs {
        Some(p) => head.push("--override-input nixpkgs "@ + p),
        None => head,
    };
    with_override + seq!["-c"@, "bash"@, "-i"@]
}

/// Law: the development shell's flake output is taken from the
/// environment's own flake: the path begins with the flake, environments
/// that differ only in their flake get different paths, and the path is the
/// third argument of `nix`.
pub proof fn law_dev_shell_uses_environment_flake(
    flake: Seq<char>,
    other: Seq<char>,
    host: Seq<char>,
    target: Seq<char>,
    mod_name: Seq<char>,
    nixpkgs: Option<Seq<char>>,
)
    ensures
        dev_shell_path_spec(flake, host, target, mod_name).take(flake.len() as int) == flake,
        flake != other ==> dev_shell_path_spec(flake, host, target, mod_name)
            != dev_shell_path_spec(other, host, target, mod_name),
        dev_shell_args_spec(dev_shell_path_spec(flake, host, target, mod_name), nixpkgs)[2]
            == dev_shell_path_spec(flake, host, target, mod_name),
{
    let p = dev_shell_path_spec(flake, host, target, mod_name);
    let q = dev_shell_path_spec(other, host, target, mod_name);
    let rest = "#packages."@ + host + ".mizeFor."@ + target + ".modules."@ + mod_name
        + ".devShell"@;
    assert(p =~= flake + rest);
    assert(q =~= other + rest);
    assert(p.take(flake.len() as int) =~= flake);
    if flake != other && p == q {
        assert(flake.len() == other.len());
        assert(flake =~= p.take(flake.len() as int));
        assert(other =~= q.take(other.len() as int));
    }
    let args = dev_shell_args_spec(p, nixpkgs);
    let head = seq!["develop"@, "--impure"@, p];
    match nixpkgs {
        Some(x) => {
            assert(args[2] == head.push("--override-input nixpkgs "@ + x)[2]);
        },
        None => {
            assert(args[2] == head[2]);
        },
    }
}

/// The path under which the environment may name a nixpkgs to build with.
pub open spec fn override_nixpkgs_path() -> Seq<char> {
    "override_nixpkgs"@
}

/// The script run in a buildable's development shell to build it: it first
/// prints the shell's process id, then runs the build command with its
/// output sent to standard error.
pub open spec fn build_script_spec(src_path: Seq<char>, system: Seq<char>, command: Seq<char>) -> Seq<
    char,
> {
    "\n                bash -c 'echo $$\n                set -e\n                export out="@ + src_path
        + "/dist/"@ + system + "\n                export build_dir="@ + src_path
        + "\n                export debugOrRelease=debug\n                ( "@ + command
        + " )>&2'\n            "@
}

/// The arguments of `nix` that start the development shell of `buildable`,
/// on a `host` system; refused when the buildable's configuration names no
/// target system or no module.
pub fn dev_shell_args(data: &DevModuleData, buildable: &Buildable, host: &str) -> (r: Result<
    Vec<String>,
    DevError,
>)
    ensures
        !buildable.config@.contains_key(system_path()) ==> (r matches Err(e)
            && e matches DevError::MissingConfigAttribute(p) && p@ == system_path()),
        buildable.config@.contains_key(system_path()) && !buildable.config@.contains_key(
            mod_name_path(),
        ) ==> (r matches Err(e) && e matches DevError::MissingConfigAttribute(p) && p@
            == mod_name_path()),
        buildable.config@.contains_key(system_path()) && buildable.config@.contains_key(
            mod_name_path(),
        ) ==> (r matches Ok(args) && args.deep_view() == dev_shell_args_spec(
            dev_shell_path_spec(
                data.mize_flake@,
                host@,
                buildable.config@[system_path()],
                buildable.config@[mod_name_path()],
            ),
            if data.config@.contains_key(override_nixpkgs_path()) {
                Some(data.config@[override_nixpkgs_path()])
            } else {
                None
            },
        )),
{
    let target = match buildable.config.get_path("system") {
        Some(t) => t,
        None => {
            return Err(DevError::MissingConfigAttribute(text_of("system")));
        },
    };
    let mod_name = match buildable.config.get_path("modName") {
        Some(m) => m,
        None => {
            return Err(DevError::MissingConfigAttribute(text_of("modName")));
        },
    };
    let mut path = text_of(data.mize_flake.as_str());
    path.append("#packages.");
    path.append(host);
    path.append(".mizeFor.");
    path.append(target.as_str());
    path.append(".modules.");
    path.append(mod_name.as_str());
    path.append(".devShell");
    let mut args: Vec<String> = Vec::new();
    args.push(text_of("develop"));
    args.push(text_of("--impure"));
    args.push(path);
    let ghost head = args.deep_view();
    match data.config.get_path("override_nixpkgs") {
        Some(nixpkgs) => {
            let mut arg = text_of("--override-input nixpkgs ");
            arg.append(nixpkgs.as_str());
            args.push(arg);
        },
        None => {},
    }
    let ghost middle = args.deep_view();
    args.push(text_of("-c"));
    args.push(text_of("bash"));
    args.push(text_of("-i"));
    proof {
        assert(args.deep_view() =~= middle + seq!["-c"@, "bash"@, "-i"@]);
    }
    Ok(args)
}

/// The script run in a buildable's development shell to build it.
pub fn build_script(src_path: &str, system: &str, command: &str) -> (r: String)
    ensures
        r@ == build_script_spec(src_path@, system@, command@),
{
    let mut r = text_of("\n                bash -c 'echo $$\n                set -e\n                export out=");
    r.append(src_path);
    r.append("/dist/");
    r.append(system);
    r.append("\n                export build_dir=");
    r.append(src_path);
    r.append("\n                export debugOrRelease=debug\n                ( ");
    r.append(command);
    r.append(" )>&2'\n            ");
    r
}

/// The build script of `buildable`; refused when its configuration names no
/// target system.
pub fn buildable_script(buildable: &Buildable) -> (r: Result<String, DevError>)
    ensures
        !buildable.config@.contains_key(system_path()) ==> (r matches Err(e)
            && e matches DevError::MissingConfigAttribute(p) && p@ == system_path()),
        buildable.config@.contains_key(system_path()) ==> (r matches Ok(s) && s@
            == build_script_spec(
            buildable.src_path@,
            buildable.config@[system_path()],
            buildable.command@,
        )),
{
    match buildable.config.get_path("system") {
        Some(system) => Ok(
            build_script(buildable.src_path.as_str(), system.as_str(), buildable.command.as_str()),
        ),
        None => Err(DevError::MissingConfigAttribute(text_of("system"))),
    }
}

} // verus!
