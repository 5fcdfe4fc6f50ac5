use mize_dev::error::{quoted, DevError};
use mize_dev::modules::{BlobModule, StringModule};

#[test]
fn messages() {
    assert_eq!(
        DevError::DuplicateBuildable("x".to_string()).message(),
        "A Buildable with the name 'x' already exists in this development environment"
    );
    assert_eq!(
        DevError::BuildableNotFound("x".to_string()).message(),
        "Buildable with name 'x' does not exist in current dev env"
    );
    assert_eq!(
        DevError::NoBuildableNamed("x".to_string()).message(),
        "no buildable with name 'x' found in current dev environment"
    );
    assert_eq!(
        DevError::MissingConfigAttribute("system".to_string()).message(),
        "The config of the Buildable does not have a system attribute"
    );
    assert_eq!(
        DevError::MalformedSetting("x".to_string()).message(),
        "config setting 'x' is not of the form path=value"
    );
    assert_eq!(
        DevError::UnbalancedQuotes.message(),
        "dev module: error spliting the line read from pipe"
    );
    assert_eq!(DevError::NoOutputBuffer("x".to_string()).message(), "...");
    assert_eq!(quoted("a", "b", "c"), "abc");
}

#[test]
fn modules_are_built() {
    let _b = BlobModule::new("BlobModule MyBox string".to_string());
    let _s = StringModule::new("StringModule MyBox string".to_string());
}
