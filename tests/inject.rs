use voice_controllm::config::InjectionConfig;
use voice_controllm::inject::{contains, is_allowed, should_inject};

#[test]
fn inject_test_is_allowed_empty_allowlist() {
    let config = InjectionConfig::default();
    assert!(config.allowlist.is_empty());
    assert!(should_inject(&config.allowlist, "Safari"));
}

#[test]
fn inject_test_is_allowed_case_insensitive() {
    let config = InjectionConfig {
        allowlist: vec!["Terminal".to_string(), "VSCode".to_string()],
    };
    assert!(is_allowed(&config.allowlist, "Terminal"));
    assert!(is_allowed(&config.allowlist, "terminal"));
    assert!(is_allowed(&config.allowlist, "TERMINAL"));
    assert!(is_allowed(&config.allowlist, "VSCode"));
    assert!(is_allowed(&config.allowlist, "vscode"));
    assert!(!is_allowed(&config.allowlist, "Safari"));
}

#[test]
fn inject_test_is_allowed_partial_match() {
    let config = InjectionConfig {
        allowlist: vec!["Code".to_string()],
    };
    assert!(is_allowed(&config.allowlist, "Visual Studio Code"));
    assert!(is_allowed(&config.allowlist, "code"));
    assert!(!is_allowed(&config.allowlist, "Terminal"));
}

#[test]
fn unknown_frontmost_app_is_injected() {
    let list = vec!["Terminal".to_string()];
    assert!(should_inject(&list, ""));
    assert!(!should_inject(&list, "Safari"));
    assert!(should_inject(&list, "iTerm Terminal"));
}

#[test]
fn substring_search() {
    assert!(contains("visual studio code", "code"));
    assert!(contains("abc", ""));
    assert!(!contains("ab", "abc"));
    assert!(!contains("terminal", "vscode"));
}
