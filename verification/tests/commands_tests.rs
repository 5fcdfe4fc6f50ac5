use mize_dev::commands::{build_script, buildable_script, dev_shell_args, CliCommand};
use mize_dev::config::BuildConfig;
use mize_dev::data::DevModuleData;
use mize_dev::error::DevError;

#[test]
fn subcommands() {
    assert_eq!(CliCommand::from_subcommand(None), Ok(CliCommand::Tui));
    assert_eq!(CliCommand::from_subcommand(Some("add")), Ok(CliCommand::Add));
    assert_eq!(CliCommand::from_subcommand(Some("remove")), Ok(CliCommand::Remove));
    assert_eq!(CliCommand::from_subcommand(Some("list")), Ok(CliCommand::List));
    assert_eq!(CliCommand::from_subcommand(Some("shell")), Ok(CliCommand::Shell));
    assert_eq!(CliCommand::from_subcommand(Some("print")), Ok(CliCommand::Print));
    let e = CliCommand::from_subcommand(Some("frobnicate")).unwrap_err();
    assert_eq!(e, DevError::UnknownSubcommand("frobnicate".to_string()));
    assert_eq!(e.message(), "unknown subcommand 'frobnicate'");
}

fn data_with_blob(system: bool) -> DevModuleData {
    let mut d = DevModuleData::default();
    let mut c = BuildConfig::new();
    c.set_path("modName", "Blob");
    if system {
        c.set_path("system", "aarch64-linux");
    }
    d.add_buildable("blob".to_string(), "/src/blob".to_string(), c, "make all".to_string()).unwrap();
    d
}

#[test]
fn dev_shell_arguments() {
    let d = data_with_blob(true);
    let args = dev_shell_args(&d, &d.buildables[0], "x86_64-linux").unwrap();
    assert_eq!(
        args,
        vec![
            "develop",
            "--impure",
            "github:c2vi/mize#packages.x86_64-linux.mizeFor.aarch64-linux.modules.Blob.devShell",
            "-c",
            "bash",
            "-i"
        ]
    );
}

#[test]
fn dev_shell_arguments_with_nixpkgs_override() {
    let mut d = data_with_blob(true);
    d.config.set_path("override_nixpkgs", "/my/nixpkgs");
    let args = dev_shell_args(&d, &d.buildables[0], "x86_64-linux").unwrap();
    assert_eq!(args.len(), 7);
    assert_eq!(args[3], "--override-input nixpkgs /my/nixpkgs");
    assert_eq!(args[6], "-i");
}

#[test]
fn dev_shell_needs_system() {
    let d = data_with_blob(false);
    assert_eq!(
        dev_shell_args(&d, &d.buildables[0], "x86_64-linux"),
        Err(DevError::MissingConfigAttribute("system".to_string()))
    );
    assert_eq!(
        buildable_script(&d.buildables[0]),
        Err(DevError::MissingConfigAttribute("system".to_string()))
    );
}

#[test]
fn build_script_text() {
    let expected = format!(
        r#"
                bash -c 'echo $$
                set -e
                export out={}/dist/{system}
                export build_dir={}
                export debugOrRelease=debug
                ( {} )>&2'
            "#,
        "/src/blob",
        "/src/blob",
        "make all",
        system = "aarch64-linux"
    );
    assert_eq!(build_script("/src/blob", "aarch64-linux", "make all"), expected);
    let d = data_with_blob(true);
    assert_eq!(buildable_script(&d.buildables[0]).unwrap(), expected);
}
