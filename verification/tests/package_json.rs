use deno_loader::package_json::is_optional_npm_dep;
use deno_loader::package_json::JsonValue;
use deno_loader::package_json::PackageJson;

fn empty() -> PackageJson {
    PackageJson {
        dependencies: None,
        peer_dependencies: None,
        peer_dependencies_meta: None,
        optional_dependencies: None,
    }
}

fn list(name: &str) -> Option<Vec<String>> {
    Some(vec!["other".to_string(), name.to_string()])
}

fn meta(name: &str, about: JsonValue) -> Option<JsonValue> {
    Some(JsonValue::Object(vec![(name.to_string(), about)]))
}

fn optional(value: JsonValue) -> JsonValue {
    JsonValue::Object(vec![("optional".to_string(), value)])
}

#[test]
fn listed_as_optional() {
    let file = PackageJson { optional_dependencies: list("fsevents"), ..empty() };
    assert_eq!(file.optional_dependency("fsevents"), Some(true));
    assert_eq!(file.optional_dependency("chalk"), None);
}

#[test]
fn optional_wins_over_ordinary() {
    let file = PackageJson {
        optional_dependencies: list("fsevents"),
        dependencies: list("fsevents"),
        ..empty()
    };
    assert_eq!(file.optional_dependency("fsevents"), Some(true));
}

#[test]
fn optional_peer() {
    let file = PackageJson {
        peer_dependencies: list("react"),
        peer_dependencies_meta: meta("react", optional(JsonValue::Bool(true))),
        ..empty()
    };
    assert_eq!(file.optional_dependency("react"), Some(true));
}

#[test]
fn peers_are_ordinary_unless_marked() {
    let marks = vec![
        optional(JsonValue::Bool(false)),
        optional(JsonValue::Other),
        JsonValue::Object(Vec::new()),
        JsonValue::Bool(true),
        JsonValue::Other,
    ];
    for mark in marks {
        let file = PackageJson {
            peer_dependencies: list("react"),
            peer_dependencies_meta: meta("react", mark),
            ..empty()
        };
        assert_eq!(file.optional_dependency("react"), Some(false));
    }
    let file = PackageJson {
        peer_dependencies: list("react"),
        peer_dependencies_meta: Some(JsonValue::Other),
        ..empty()
    };
    assert_eq!(file.optional_dependency("react"), Some(false));
}

#[test]
fn ordinary_dependency() {
    let file = PackageJson { dependencies: list("chalk"), ..empty() };
    assert_eq!(file.optional_dependency("chalk"), Some(false));
}

#[test]
fn nearest_file_decides() {
    let near = || Some(PackageJson { dependencies: list("x"), ..empty() });
    let far = || Some(PackageJson { optional_dependencies: list("x"), ..empty() });
    assert!(!is_optional_npm_dep("x", &vec![near(), far()]));
    assert!(is_optional_npm_dep("x", &vec![far(), near()]));
    assert!(is_optional_npm_dep("x", &vec![Some(empty()), far()]));
}

#[test]
fn unreadable_files_are_skipped() {
    let far = || Some(PackageJson { optional_dependencies: list("x"), ..empty() });
    assert!(is_optional_npm_dep("x", &vec![None, far()]));
    assert!(!is_optional_npm_dep("x", &vec![None, None]));
}

#[test]
fn unknown_dependency_is_not_optional() {
    assert!(!is_optional_npm_dep("x", &Vec::new()));
    assert!(!is_optional_npm_dep("x", &vec![Some(empty())]));
}
