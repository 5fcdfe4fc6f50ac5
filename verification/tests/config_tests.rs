use mize_dev::config::{config_from_argument, BuildConfig};
use mize_dev::error::DevError;

#[test]
fn set_then_get() {
    let mut c = BuildConfig::new();
    assert_eq!(c.get_path("system"), None);
    c.set_path("system", "aarch64-linux");
    c.set_path("modName", "Blob");
    c.set_path("system", "x86_64-linux-gnu");
    assert_eq!(c.get_path("system"), Some("x86_64-linux-gnu".to_string()));
    assert_eq!(c.get_path("modName"), Some("Blob".to_string()));
    assert_eq!(c.entries.len(), 2);
}

#[test]
fn parse_settings_reads_path_value_words() {
    let c = BuildConfig::parse_settings("modName=Blob  system=a=b").unwrap();
    assert_eq!(c.get_path("modName"), Some("Blob".to_string()));
    assert_eq!(c.get_path("system"), Some("a=b".to_string()));
    let later = BuildConfig::parse_settings("x=1 x=2").unwrap();
    assert_eq!(later.get_path("x"), Some("2".to_string()));
}

#[test]
fn parse_settings_refuses_a_word_without_equals() {
    assert_eq!(
        BuildConfig::parse_settings("a=1 oops b=2 bad"),
        Err(DevError::MalformedSetting("oops".to_string()))
    );
}

#[test]
fn no_argument_gives_default_system() {
    let c = config_from_argument(None).unwrap();
    assert_eq!(c.get_path("system"), Some("x86_64-linux-gnu".to_string()));
    assert_eq!(c.get_path("modName"), None);
}

#[test]
fn bare_word_is_module_name() {
    let c = config_from_argument(Some("Blob")).unwrap();
    assert_eq!(c.get_path("modName"), Some("Blob".to_string()));
    assert_eq!(c.get_path("system"), Some("x86_64-linux-gnu".to_string()));
}

#[test]
fn configured_system_is_kept() {
    let c = config_from_argument(Some("modName=String system=aarch64-linux")).unwrap();
    assert_eq!(c.get_path("modName"), Some("String".to_string()));
    assert_eq!(c.get_path("system"), Some("aarch64-linux".to_string()));
}

#[test]
fn bare_words_with_spaces_are_refused() {
    assert_eq!(
        config_from_argument(Some("Blob extra")),
        Err(DevError::MalformedSetting("extra".to_string()))
    );
}

#[test]
fn entries_keep_the_order_paths_were_first_set() {
    let c = BuildConfig::parse_settings("b=1 a=2 b=3").unwrap();
    let paths: Vec<&str> = c.entries.iter().map(|e| e.path.as_str()).collect();
    assert_eq!(paths, vec!["b", "a"]);
    assert_eq!(c.get_path("b"), Some("3".to_string()));
    let d = config_from_argument(Some("Blob")).unwrap();
    let paths: Vec<&str> = d.entries.iter().map(|e| e.path.as_str()).collect();
    assert_eq!(paths, vec!["modName", "system"]);
}
