use owlgo::error::OwlError;
use owlgo::manifest::{check_for_updates, get_embedded_version, get_manifest_ai_sdk, get_manifest_version_timestamp, get_toml_entry};

const HEADER: &str = "[manifest]\nversion = \"0.1.5\"\ntimestamp = \"2025.3.1\"\nai_sdk = \"chatkit\"\napi_key = \"\"\n";

fn tables(names: &[&str]) -> Vec<String> {
    names.iter().map(|s| s.to_string()).collect()
}

#[test]
fn header_version_and_timestamp() {
    assert_eq!(
        get_manifest_version_timestamp(HEADER).ok(),
        Some(("0.1.5".to_string(), "2025.3.1".to_string()))
    );
}

#[test]
fn header_assistant_settings() {
    assert_eq!(get_manifest_ai_sdk(HEADER).ok(), Some(("chatkit".to_string(), String::new())));
}

#[test]
fn header_without_timestamp_is_an_error() {
    let header = "[manifest]\nversion = \"0.1.5\"\n";
    assert!(matches!(get_manifest_version_timestamp(header), Err(OwlError::TomlError(_, _))));
}

#[test]
fn header_with_number_instead_of_string_is_an_error() {
    let header = "[manifest]\nversion = 5\ntimestamp = \"1\"\n";
    assert!(matches!(get_manifest_version_timestamp(header), Err(OwlError::TomlError(_, _))));
}

#[test]
fn text_that_is_not_toml_is_an_error() {
    assert!(matches!(get_manifest_ai_sdk("[manifest\nversion ="), Err(OwlError::TomlError(_, _))));
}

#[test]
fn entry_comes_from_first_table_holding_it() {
    let doc = "[quests]\ntwo-sum = \"https://a/two-sum.zip\"\n\n[personal]\ntwo-sum = \"/home/me/two-sum\"\nmine = \"/x\"\n";
    assert_eq!(
        get_toml_entry(doc, &tables(&["personal", "quests"]), "two-sum").ok(),
        Some("/home/me/two-sum".to_string())
    );
    assert_eq!(
        get_toml_entry(doc, &tables(&["quests", "personal"]), "two-sum").ok(),
        Some("https://a/two-sum.zip".to_string())
    );
    assert_eq!(get_toml_entry(doc, &tables(&["quests", "personal"]), "mine").ok(), Some("/x".to_string()));
    match get_toml_entry(doc, &tables(&["quests", "personal"]), "absent") {
        Err(OwlError::TomlError(x, _)) => assert_eq!(x, "absent"),
        _ => panic!("expected TomlError"),
    }
    assert!(get_toml_entry(doc, &tables(&["missing"]), "mine").is_err());
}

#[test]
fn updates_when_remote_is_ahead() {
    let remote = "[manifest]\nversion = \"0.1.6\"\ntimestamp = \"2025.3.1\"\n";
    assert_eq!(check_for_updates(remote, "0.1.5", "2025.3.1").ok(), Some((true, false)));
    assert_eq!(check_for_updates(remote, "0.1.6", "2025.2.9").ok(), Some((false, true)));
    assert!(matches!(check_for_updates(remote, "x", "1"), Err(OwlError::TomlError(_, _))));
    assert!(check_for_updates("version = 1", "0.1.5", "1").is_err());
}

#[test]
fn template_version() {
    let template = "\n[manifest]\nversion = \"0.1.5\"\ntimestamp = \"0.0.0\"\n\n[extensions]\n\n[quests]\n";
    assert_eq!(get_embedded_version(template).ok(), Some("0.1.5".to_string()));
    assert!(matches!(get_embedded_version("[extensions]\n"), Err(OwlError::TomlError(_, _))));
}
