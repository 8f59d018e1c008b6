use std::path::PathBuf;

use zed_dprint::json::{
    json_object_has_non_null_key, package_json_declares_dependency, parse_json, JsonValue,
};
use zed_dprint::paths::{join_path, path_to_command};
use zed_dprint::platform::{Architecture, Os};
use zed_dprint::release::{
    default_language_server_args, release_asset_name, release_binary_path, release_directory,
    worktree_dprint_binary_path, NPM_BINARY_PATH, NPM_BINARY_PATH_WINDOWS,
};

fn text(s: &str) -> JsonValue {
    JsonValue::Text(s.to_string())
}

fn object(members: Vec<(&str, JsonValue)>) -> JsonValue {
    JsonValue::Object(members.into_iter().map(|(k, v)| (k.to_string(), v)).collect())
}

#[test]
fn release_assets_match_supported_platforms() {
    assert_eq!(
        release_asset_name(Architecture::X8664, Os::Linux).unwrap(),
        "dprint-x86_64-unknown-linux-gnu.zip"
    );
    assert_eq!(
        release_asset_name(Architecture::Aarch64, Os::Mac).unwrap(),
        "dprint-aarch64-apple-darwin.zip"
    );
    assert_eq!(
        release_asset_name(Architecture::X8664, Os::Windows).unwrap(),
        "dprint-x86_64-pc-windows-msvc.zip"
    );
    assert!(release_asset_name(Architecture::X86, Os::Linux).is_err());
}

#[test]
fn release_binary_paths_match_platforms() {
    assert_eq!(
        PathBuf::from(release_binary_path("0.55.2", Os::Linux)),
        PathBuf::from("dprint-0.55.2/dprint")
    );
    assert_eq!(
        PathBuf::from(release_binary_path("0.55.2", Os::Windows)),
        PathBuf::from("dprint-0.55.2/dprint.exe")
    );
}

#[test]
fn worktree_binary_paths_match_platforms() {
    assert_eq!(worktree_dprint_binary_path(Os::Linux), NPM_BINARY_PATH);
    assert_eq!(
        worktree_dprint_binary_path(Os::Windows),
        NPM_BINARY_PATH_WINDOWS
    );
}

#[test]
fn package_json_detection_checks_regular_and_dev_dependencies() {
    assert!(package_json_declares_dependency(&object(vec![(
        "dependencies",
        object(vec![("dprint", text("1.0.0"))])
    )])));
    assert!(package_json_declares_dependency(&object(vec![(
        "devDependencies",
        object(vec![("dprint", text("1.0.0"))])
    )])));
    assert!(!package_json_declares_dependency(&object(vec![(
        "dependencies",
        object(vec![("prettier", text("1.0.0"))])
    )])));
    assert!(!package_json_declares_dependency(&object(vec![(
        "dependencies",
        object(vec![("dprint", JsonValue::Null)])
    )])));
    assert!(!package_json_declares_dependency(&object(vec![(
        "dependencies",
        JsonValue::Array(vec![text("dprint")])
    )])));
}

#[test]
fn default_command_runs_dprint_lsp() {
    assert_eq!(default_language_server_args(), ["lsp"]);
}

#[test]
fn x86_asset_error_names_the_architecture() {
    assert_eq!(
        release_asset_name(Architecture::X86, Os::Windows).unwrap_err(),
        "dprint does not publish release binaries for 32-bit x86"
    );
    assert_eq!(
        release_asset_name(Architecture::Aarch64, Os::Linux).unwrap(),
        "dprint-aarch64-unknown-linux-gnu.zip"
    );
}

#[test]
fn release_directory_prefixes_the_version() {
    assert_eq!(release_directory("0.55.2"), "dprint-0.55.2");
    assert_eq!(release_directory(""), "dprint-");
    assert_eq!(release_binary_path("0.50.0", Os::Mac), "dprint-0.50.0/dprint");
    assert_eq!(release_binary_path("0.50.0", Os::Windows), "dprint-0.50.0/dprint.exe");
}

#[test]
fn joining_paths_follows_separator_rules() {
    assert_eq!(join_path("/work/tree", "node_modules/.bin/dprint"), "/work/tree/node_modules/.bin/dprint");
    assert_eq!(join_path("/work/tree/", "dprint"), "/work/tree/dprint");
    assert_eq!(join_path("", "dprint"), "dprint");
    assert_eq!(join_path("/work", "/usr/bin/dprint"), "/usr/bin/dprint");
    assert_eq!(
        PathBuf::from(join_path("/work/tree", "dprint")),
        PathBuf::from("/work/tree").join("dprint")
    );
}

#[test]
fn null_dependency_and_non_object_documents_do_not_count() {
    assert!(!package_json_declares_dependency(&JsonValue::Null));
    assert!(!package_json_declares_dependency(&JsonValue::Array(vec![])));
    assert!(!package_json_declares_dependency(&object(vec![("dependencies", JsonValue::Null)])));
    assert!(package_json_declares_dependency(&object(vec![
        ("name", text("app")),
        ("devDependencies", object(vec![("dprint", JsonValue::Bool(false))])),
    ])));
    assert!(package_json_declares_dependency(&object(vec![(
        "dependencies",
        object(vec![("dprint", JsonValue::Number("1".to_string()))])
    )])));
}

#[test]
fn member_lookup_takes_the_first_match() {
    let doc = object(vec![
        ("dependencies", object(vec![("dprint", JsonValue::Null)])),
        ("dependencies", object(vec![("dprint", text("1.0.0"))])),
    ]);
    assert!(!json_object_has_non_null_key(&doc, "dependencies", "dprint"));
    assert!(!json_object_has_non_null_key(&doc, "devDependencies", "dprint"));
}

#[test]
fn command_of_a_utf8_path_is_the_path() {
    assert_eq!(path_to_command("dprint-0.55.2/dprint").unwrap(), "dprint-0.55.2/dprint");
}

#[test]
fn parsed_package_json_is_modelled_member_by_member() {
    let doc = parse_json(r#"{ "devDependencies": { "dprint": "1.0.0", "x": [1, 2.5, true, null] } }"#).unwrap();
    assert!(package_json_declares_dependency(&doc));
    match &doc {
        JsonValue::Object(members) => {
            assert_eq!(members.len(), 1);
            assert_eq!(members[0].0, "devDependencies");
        }
        _ => panic!("expected an object"),
    }
    assert!(parse_json("{ \"dependencies\": ").is_none());
    assert!(parse_json("").is_none());
    assert!(matches!(parse_json("42"), Some(JsonValue::Number(n)) if n == "42"));
    assert!(!package_json_declares_dependency(&parse_json(r#"{ "dependencies": ["dprint"] }"#).unwrap()));
}
