use std::path::PathBuf;

use zed_dprint::command::BinarySettings;
use zed_dprint::dprint::{
    command_settings, deno_json_declares_import, dprint_config, package_json_declares_dependency,
};
use zed_dprint::dprint_resolve::{Action, Event, Resolver};
use zed_dprint::install::{Release, ReleaseAsset};
use zed_dprint::json::JsonValue;
use zed_dprint::paths::path_to_command;
use zed_dprint::platform::{Architecture, Os};

fn text(s: &str) -> JsonValue {
    JsonValue::Text(s.to_string())
}

fn object(members: Vec<(&str, JsonValue)>) -> JsonValue {
    JsonValue::Object(members.into_iter().map(|(k, v)| (k.to_string(), v)).collect())
}

#[test]
fn dprint_release_asset_names_match_supported_platforms() {
    assert_eq!(
        dprint_config()
            .auto_installer
            .asset_name(Architecture::X8664, Os::Linux)
            .unwrap(),
        "dprint-x86_64-unknown-linux-gnu.zip"
    );
    assert_eq!(
        dprint_config()
            .auto_installer
            .asset_name(Architecture::Aarch64, Os::Mac)
            .unwrap(),
        "dprint-aarch64-apple-darwin.zip"
    );
    assert_eq!(
        dprint_config()
            .auto_installer
            .asset_name(Architecture::X8664, Os::Windows)
            .unwrap(),
        "dprint-x86_64-pc-windows-msvc.zip"
    );
}

#[test]
fn x86_auto_install_is_unsupported() {
    let error = dprint_config()
        .auto_installer
        .asset_name(Architecture::X86, Os::Linux)
        .unwrap_err();

    assert!(error.contains("unsupported architecture: x86"));
}

#[test]
fn dprint_binary_paths_match_platform_conventions() {
    assert_eq!(
        PathBuf::from(dprint_config().auto_installer.binary_path("0.50.0", Os::Linux)),
        PathBuf::from("dprint-0.50.0/dprint")
    );
    assert_eq!(
        PathBuf::from(dprint_config().auto_installer.binary_path("0.50.0", Os::Windows)),
        PathBuf::from("dprint-0.50.0/dprint.exe")
    );
    assert_eq!(
        dprint_config().worktree.binary_path(Os::Windows),
        "node_modules/.bin/dprint.cmd"
    );
}

#[test]
fn package_json_dependency_detection_checks_dependencies_and_dev_dependencies() {
    assert!(package_json_declares_dependency(
        &object(vec![("dependencies", object(vec![("dprint", text("1.0.0"))]))]),
        "dprint"
    ));
    assert!(package_json_declares_dependency(
        &object(vec![("devDependencies", object(vec![("dprint", text("1.0.0"))]))]),
        "dprint"
    ));
    assert!(!package_json_declares_dependency(
        &object(vec![("dependencies", object(vec![("prettier", text("1.0.0"))]))]),
        "dprint"
    ));
    assert!(!package_json_declares_dependency(
        &object(vec![("dependencies", object(vec![("dprint", JsonValue::Null)]))]),
        "dprint"
    ));
    assert!(!package_json_declares_dependency(
        &object(vec![("dependencies", JsonValue::Array(vec![text("dprint")]))]),
        "dprint"
    ));
}

#[test]
fn deno_json_import_detection_checks_import_map() {
    assert!(deno_json_declares_import(
        &object(vec![("imports", object(vec![("dprint", text("npm:dprint"))]))]),
        "dprint"
    ));
    assert!(!deno_json_declares_import(
        &object(vec![("imports", object(vec![("prettier", text("npm:prettier"))]))]),
        "dprint"
    ));
    assert!(!deno_json_declares_import(
        &object(vec![("imports", JsonValue::Null)]),
        "dprint"
    ));
}

#[test]
fn command_paths_must_be_valid_utf8() {
    assert_eq!(
        path_to_command("dprint-0.50.0/dprint").unwrap(),
        "dprint-0.50.0/dprint"
    );
}

#[test]
fn release_folder_and_binary_follow_the_prefix() {
    let config = dprint_config();
    assert_eq!(config.auto_installer.release_dir_name("0.50.0"), "dprint-0.50.0");
    assert_eq!(config.auto_installer.binary_path("0.50.0", Os::Mac), "dprint-0.50.0/dprint");
    assert_eq!(config.worktree.binary_path(Os::Linux), "node_modules/.bin/dprint");
    assert_eq!(config.auto_installer.github_repo, "dprint/dprint");
    assert_eq!(config.worktree.binary_basename, "dprint");
    assert_eq!(config.worktree.node_package_name, "dprint");
    assert_eq!(
        config.auto_installer.asset_name(Architecture::X86, Os::Mac).unwrap_err(),
        "unsupported architecture: x86; install dprint on your machine or worktree instead"
    );
}

/// One working-directory entry as the simulated host reports it.
#[derive(Clone)]
struct Entry {
    entry: Result<Option<String>, String>,
    is_dir: Result<bool, String>,
    removal: Result<(), String>,
}

fn dir(name: &str) -> Entry {
    Entry { entry: Ok(Some(name.to_string())), is_dir: Ok(true), removal: Ok(()) }
}

struct Host {
    os: Os,
    architecture: Architecture,
    package_json: Option<String>,
    deno_json: Option<String>,
    which: Option<String>,
    release: Result<String, String>,
    installed: bool,
    listing: Result<(), String>,
    entries: Vec<Entry>,
    download: Result<(), String>,
}

fn host() -> Host {
    Host {
        os: Os::Linux,
        architecture: Architecture::X8664,
        package_json: None,
        deno_json: None,
        which: None,
        release: Ok("0.50.0".to_string()),
        installed: false,
        listing: Ok(()),
        entries: vec![],
        download: Ok(()),
    }
}

fn take_json(doc: &mut Option<String>) -> Option<String> {
    doc.take()
}

fn resolve(mut h: Host, configured: Option<&str>) -> (Result<String, String>, Vec<String>) {
    let mut resolver = Resolver::new(dprint_config(), configured.map(str::to_string));
    let mut event = Event::Begin;
    let mut log = Vec::new();
    let mut cursor = 0;
    for _ in 0..128 {
        assert!(resolver.accepts(&event));
        event = match resolver.step(event) {
            Action::QueryPlatform => Event::Platform(h.os, h.architecture),
            Action::ReadJsonFile(path) => {
                log.push(format!("read {path}"));
                if path == "package.json" {
                    Event::JsonFile(take_json(&mut h.package_json))
                } else {
                    Event::JsonFile(take_json(&mut h.deno_json))
                }
            }
            Action::QueryRootPath => Event::RootPath("/work".to_string()),
            Action::Which(name) => {
                log.push(format!("which {name}"));
                Event::Which(h.which.clone())
            }
            Action::FetchLatestRelease(repo) => {
                log.push(format!("fetch {repo}"));
                Event::Release(h.release.clone().map(|version| Release {
                    version,
                    assets: vec![ReleaseAsset {
                        name: "dprint-x86_64-unknown-linux-gnu.zip".to_string(),
                        download_url: "https://example.com/linux".to_string(),
                    }],
                }))
            }
            Action::SetStatus(_) => {
                log.push("status".to_string());
                Event::StatusSet
            }
            Action::CheckInstalledBinary(p) => {
                log.push(format!("check {p}"));
                Event::IsFile(h.installed)
            }
            Action::ListEntries => Event::Listing(h.listing.clone()),
            Action::NextEntry => {
                if cursor < h.entries.len() {
                    cursor += 1;
                    Event::Entry(Some(h.entries[cursor - 1].entry.clone()))
                } else {
                    Event::Entry(None)
                }
            }
            Action::ReadMetadata(p) => {
                log.push(format!("stat {p}"));
                Event::Metadata(h.entries[cursor - 1].is_dir.clone())
            }
            Action::RemoveDirectory(p) => {
                log.push(format!("rmdir {p}"));
                Event::Removed(h.entries[cursor - 1].removal.clone())
            }
            Action::RemoveFile(p) => {
                log.push(format!("rm {p}"));
                Event::Removed(h.entries[cursor - 1].removal.clone())
            }
            Action::Download { url, directory } => {
                log.push(format!("download {url} into {directory}"));
                Event::Downloaded(h.download.clone())
            }
            Action::Finish(result) => {
                assert!(resolver.is_finished());
                return (result, log);
            }
        };
    }
    panic!("resolution did not finish");
}

#[test]
fn configured_layout_prefers_worktree_manifests() {
    let (result, log) = resolve(host(), Some("/opt/dprint"));
    assert_eq!(result.unwrap(), "/opt/dprint");
    assert!(log.is_empty());

    let mut h = host();
    h.deno_json = Some(r#"{ "imports": { "dprint": "npm:dprint" } }"#.to_string());
    h.which = Some("/usr/bin/dprint".to_string());
    let (result, log) = resolve(h, None);
    assert_eq!(result.unwrap(), "/work/node_modules/.bin/dprint");
    assert_eq!(log, vec!["read package.json", "read deno.json"]);

    let mut h = host();
    h.package_json = Some(r#"{ "dependencies": { "dprint": "1" } }"#.to_string());
    h.os = Os::Windows;
    let (result, log) = resolve(h, None);
    assert_eq!(result.unwrap(), "/work/node_modules/.bin/dprint.cmd");
    assert_eq!(log, vec!["read package.json"]);

    let mut h = host();
    h.which = Some("/usr/bin/dprint".to_string());
    let (result, _) = resolve(h, None);
    assert_eq!(result.unwrap(), "/usr/bin/dprint");
}

#[test]
fn configured_layout_removes_other_releases_before_downloading() {
    let mut h = host();
    h.entries = vec![
        dir("dprint-0.49.0"),
        dir("dprint-0.50.0"),
        Entry { entry: Ok(None), is_dir: Ok(false), removal: Ok(()) },
        Entry { entry: Ok(Some("dprint-old.zip".to_string())), is_dir: Ok(false), removal: Ok(()) },
        dir("node_modules"),
    ];
    let (result, log) = resolve(h, None);
    assert_eq!(result.unwrap(), "dprint-0.50.0/dprint");
    assert_eq!(
        log,
        vec![
            "read package.json",
            "read deno.json",
            "which dprint",
            "fetch dprint/dprint",
            "status",
            "check dprint-0.50.0/dprint",
            "stat ./dprint-0.49.0",
            "rmdir ./dprint-0.49.0",
            "stat ./dprint-old.zip",
            "rm ./dprint-old.zip",
            "status",
            "download https://example.com/linux into dprint-0.50.0",
        ]
    );
}

#[test]
fn configured_layout_reuses_an_installed_release() {
    let mut h = host();
    h.installed = true;
    h.entries = vec![dir("dprint-0.49.0")];
    let (result, log) = resolve(h, None);
    assert_eq!(result.unwrap(), "dprint-0.50.0/dprint");
    assert!(!log.iter().any(|l| l.starts_with("rmdir") || l.starts_with("download")));
}

#[test]
fn configured_layout_reports_each_error() {
    let mut h = host();
    h.release = Err("offline".to_string());
    assert_eq!(resolve(h, None).0, Err("offline".to_string()));

    let mut h = host();
    h.listing = Err("denied".to_string());
    assert_eq!(resolve(h, None).0, Err("failed to list working directory: denied".to_string()));

    let mut h = host();
    h.entries = vec![Entry { entry: Err("io".to_string()), is_dir: Ok(true), removal: Ok(()) }];
    assert_eq!(resolve(h, None).0, Err("failed to load directory entry: io".to_string()));

    let mut h = host();
    h.entries = vec![Entry { entry: Ok(Some("dprint-1".to_string())), is_dir: Err("gone".to_string()), removal: Ok(()) }];
    assert_eq!(resolve(h, None).0, Err("failed to stat \"./dprint-1\": gone".to_string()));

    let mut h = host();
    h.entries = vec![Entry { entry: Ok(Some("dprint-'".to_string())), is_dir: Err("gone".to_string()), removal: Ok(()) }];
    assert_eq!(resolve(h, None).0, Err("failed to stat \"./dprint-'\": gone".to_string()));

    let mut h = host();
    h.entries = vec![Entry { entry: Ok(Some("dprint-1".to_string())), is_dir: Ok(true), removal: Err("busy".to_string()) }];
    assert_eq!(resolve(h, None).0, Err("failed to remove directory \"./dprint-1\": busy".to_string()));

    let mut h = host();
    h.entries = vec![Entry { entry: Ok(Some("dprint-1".to_string())), is_dir: Ok(false), removal: Err("busy".to_string()) }];
    assert_eq!(resolve(h, None).0, Err("failed to remove file \"./dprint-1\": busy".to_string()));

    let mut h = host();
    h.architecture = Architecture::Aarch64;
    assert_eq!(
        resolve(h, None).0,
        Err("no compatible asset found for \"dprint-aarch64-unknown-linux-gnu.zip\"".to_string())
    );

    let mut h = host();
    h.architecture = Architecture::X86;
    assert_eq!(
        resolve(h, None).0,
        Err("unsupported architecture: x86; install dprint on your machine or worktree instead".to_string())
    );

    let mut h = host();
    h.download = Err("reset".to_string());
    assert_eq!(resolve(h, None).0, Err("reset".to_string()));
}

#[test]
fn configured_layout_launches_without_environment() {
    let settings = command_settings(None);
    assert_eq!(settings.configured_path, None);
    assert_eq!(settings.args, vec!["lsp".to_string()]);
    assert!(settings.env.is_empty());
    let settings = command_settings(Some(BinarySettings {
        path: Some("/bin/dprint".to_string()),
        arguments: Some(vec!["lsp".to_string(), "--log-level=debug".to_string()]),
        env: Some(vec![("A".to_string(), "B".to_string())]),
    }));
    assert_eq!(settings.configured_path.as_deref(), Some("/bin/dprint"));
    assert_eq!(settings.args, vec!["lsp".to_string(), "--log-level=debug".to_string()]);
    assert!(settings.env.is_empty());
}
