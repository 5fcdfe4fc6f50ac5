use mize_dev::config::BuildConfig;
use mize_dev::data::{build_command_expr, DevModuleData};
use mize_dev::error::DevError;

fn config_for(module: &str) -> BuildConfig {
    let mut c = BuildConfig::new();
    c.set_path("modName", module);
    c.set_path("system", "x86_64-linux-gnu");
    c
}

#[test]
fn default_data() {
    let d = DevModuleData::default();
    assert_eq!(d.last_build, 0);
    assert_eq!(d.mize_flake, "github:c2vi/mize");
    assert!(d.buildables.is_empty());
    assert!(d.config.entries.is_empty());
}

#[test]
fn add_then_find_then_remove() {
    let mut d = DevModuleData::default();
    let before = d.clone();
    d.add_buildable("blob".to_string(), "/src/blob".to_string(), config_for("Blob"), "make".to_string())
        .unwrap();
    let b = d.find_buildable("blob").unwrap();
    assert!(b.active);
    assert_eq!(b.src_path, "/src/blob");
    assert_eq!(b.command, "make");
    d.remove_buildable("blob").unwrap();
    assert_eq!(d, before);
}

#[test]
fn duplicate_names_are_refused() {
    let mut d = DevModuleData::default();
    d.add_buildable("blob".to_string(), "/a".to_string(), config_for("Blob"), "x".to_string()).unwrap();
    let snapshot = d.clone();
    assert_eq!(
        d.add_buildable("blob".to_string(), "/b".to_string(), config_for("Blob"), "y".to_string()),
        Err(DevError::DuplicateBuildable("blob".to_string()))
    );
    assert_eq!(d, snapshot);
}

#[test]
fn module_name_is_required() {
    let mut d = DevModuleData::default();
    assert_eq!(
        d.add_buildable("blob".to_string(), "/a".to_string(), BuildConfig::new(), "x".to_string()),
        Err(DevError::MissingConfigAttribute("modName".to_string()))
    );
    assert!(d.buildables.is_empty());
}

#[test]
fn removing_an_unknown_buildable_is_refused() {
    let mut d = DevModuleData::default();
    assert_eq!(d.remove_buildable("nope"), Err(DevError::BuildableNotFound("nope".to_string())));
    assert_eq!(d.find_buildable("nope").unwrap_err(), DevError::NoBuildableNamed("nope".to_string()));
}

#[test]
fn remove_takes_the_first_of_that_name() {
    let mut d = DevModuleData::default();
    d.add_buildable("a".to_string(), "/a".to_string(), config_for("A"), "x".to_string()).unwrap();
    d.add_buildable("b".to_string(), "/b".to_string(), config_for("B"), "y".to_string()).unwrap();
    d.remove_buildable("a").unwrap();
    assert_eq!(d.buildables.len(), 1);
    assert_eq!(d.buildables[0].name, "b");
    assert!(d.has_buildable("b"));
    assert!(!d.has_buildable("a"));
}

#[test]
fn list_line_format() {
    let mut d = DevModuleData::default();
    d.add_buildable("blob".to_string(), "/src/blob".to_string(), config_for("Blob"), "make".to_string())
        .unwrap();
    assert_eq!(d.buildables[0].list_line(), "blob \t\t active:true \t\t at:/src/blob");
}

#[test]
fn command_expression() {
    let d = DevModuleData::default();
    let expr = d.command_expr_for("blob", &config_for("Blob")).unwrap();
    let expected = format!(
        r#"
            let 
                mize = builtins.getFlake "{}";
                mizeBuildPhase = mize.packages.x86_64-linux.mizeFor.{system_str}.modules.{mod_name}.mizeBuildPhase;
                mizeInstallPhase = mize.packages.x86_64-linux.mizeFor.{system_str}.modules.{mod_name}.mizeInstallPhase;
            in mizeBuildPhase + mizeInstallPhase
        "#,
        "github:c2vi/mize",
        system_str = "x86_64-linux-gnu",
        mod_name = "Blob"
    );
    assert_eq!(expr, expected);
    assert_eq!(build_command_expr("github:c2vi/mize", "Blob"), expected);
    assert_eq!(
        d.command_expr_for("blob", &BuildConfig::new()),
        Err(DevError::MissingConfigAttribute("modName".to_string()))
    );
}
