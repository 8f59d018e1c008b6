use zed_dprint::command::{launch_settings, BinarySettings};
use zed_dprint::install::{is_stale_release_entry, stale_release_entries, Release, ReleaseAsset};
use zed_dprint::platform::{Architecture, Os};
use zed_dprint::resolve::{Action, Event, InstallStatus, Resolver};

/// The answers of a simulated host.
struct Host {
    os: Os,
    architecture: Architecture,
    package_json: Option<String>,
    root: String,
    which: Option<String>,
    cached_is_file: bool,
    release: Result<(String, Vec<(String, String)>), String>,
    installed: bool,
    download: Result<(), String>,
    present_after: bool,
    make_executable: Result<(), String>,
    entries: Vec<String>,
}

fn host() -> Host {
    Host {
        os: Os::Linux,
        architecture: Architecture::X8664,
        package_json: None,
        root: "/work".to_string(),
        which: None,
        cached_is_file: false,
        release: Ok((
            "0.50.0".to_string(),
            vec![
                ("dprint-aarch64-apple-darwin.zip".to_string(), "https://example.com/mac".to_string()),
                ("dprint-x86_64-unknown-linux-gnu.zip".to_string(), "https://example.com/linux".to_string()),
                ("dprint-x86_64-pc-windows-msvc.zip".to_string(), "https://example.com/win".to_string()),
            ],
        )),
        installed: false,
        download: Ok(()),
        present_after: true,
        make_executable: Ok(()),
        entries: vec![],
    }
}

fn status_name(status: &InstallStatus) -> String {
    match status {
        InstallStatus::CheckingForUpdate => "checking".to_string(),
        InstallStatus::Downloading => "downloading".to_string(),
        InstallStatus::Idle => "idle".to_string(),
        InstallStatus::Failed(e) => format!("failed: {e}"),
    }
}

/// Runs a resolution against `h`; returns the result, the remembered executable and a log.
fn resolve(
    h: &Host,
    configured: Option<&str>,
    cached: Option<&str>,
) -> (Result<String, String>, Option<String>, Vec<String>) {
    let mut resolver = Resolver::new(configured.map(str::to_string), cached.map(str::to_string));
    let mut event = Event::Begin;
    let mut log = Vec::new();
    for _ in 0..64 {
        assert!(resolver.accepts(&event));
        let action = resolver.step(event);
        event = match action {
            Action::QueryPlatform => Event::Platform(h.os, h.architecture),
            Action::ReadPackageJson => {
                log.push("read package.json".to_string());
                Event::PackageJson(h.package_json.clone())
            }
            Action::QueryRootPath => Event::RootPath(h.root.clone()),
            Action::Which(name) => {
                log.push(format!("which {name}"));
                Event::Which(h.which.clone())
            }
            Action::CheckCachedBinary(p) => {
                log.push(format!("check cached {p}"));
                Event::IsFile(h.cached_is_file)
            }
            Action::SetStatus(s) => {
                log.push(format!("status {}", status_name(&s)));
                Event::StatusSet
            }
            Action::FetchLatestRelease(repo) => {
                log.push(format!("fetch {repo}"));
                Event::Release(h.release.clone().map(|(version, assets)| Release {
                    version,
                    assets: assets
                        .into_iter()
                        .map(|(name, download_url)| ReleaseAsset { name, download_url })
                        .collect(),
                }))
            }
            Action::CheckInstalledBinary(p) => {
                log.push(format!("check installed {p}"));
                Event::IsFile(h.installed)
            }
            Action::Download { url, directory } => {
                log.push(format!("download {url} into {directory}"));
                Event::Downloaded(h.download.clone())
            }
            Action::VerifyBinary(p) => {
                log.push(format!("verify {p}"));
                Event::IsFile(h.present_after)
            }
            Action::MakeExecutable(p) => {
                log.push(format!("chmod {p}"));
                Event::MadeExecutable(h.make_executable.clone())
            }
            Action::ListEntries => Event::Entries(h.entries.clone()),
            Action::RemoveEntries(names) => {
                log.push(format!("remove {}", names.join(",")));
                Event::Removed
            }
            Action::Finish(result) => {
                assert!(resolver.is_finished());
                return (result, resolver.cached_install_path(), log);
            }
        };
    }
    panic!("resolution did not finish");
}

fn depends_on_dprint() -> String {
    r#"{ "name": "app", "devDependencies": { "dprint": "^0.50" } }"#.to_string()
}

#[test]
fn configured_path_is_used_without_outside_work() {
    let (result, cached, log) = resolve(&host(), Some("/opt/dprint"), Some("dprint-0.1.0/dprint"));
    assert_eq!(result.unwrap(), "/opt/dprint");
    assert_eq!(cached.as_deref(), Some("dprint-0.1.0/dprint"));
    assert!(log.is_empty());
}

#[test]
fn worktree_dependency_uses_the_npm_shim() {
    let mut h = host();
    h.package_json = Some(depends_on_dprint());
    h.which = Some("/usr/bin/dprint".to_string());
    let (result, _, log) = resolve(&h, None, None);
    assert_eq!(result.unwrap(), "/work/node_modules/.bin/dprint");
    assert_eq!(log, vec!["read package.json".to_string()]);
    h.os = Os::Windows;
    let (result, _, _) = resolve(&h, None, None);
    assert_eq!(result.unwrap(), "/work/node_modules/.bin/dprint.cmd");
}

#[test]
fn path_lookup_comes_before_installation() {
    let mut h = host();
    h.which = Some("/usr/bin/dprint".to_string());
    let (result, cached, log) = resolve(&h, None, Some("dprint-0.1.0/dprint"));
    assert_eq!(result.unwrap(), "/usr/bin/dprint");
    assert_eq!(cached.as_deref(), Some("dprint-0.1.0/dprint"));
    assert_eq!(log, vec!["read package.json".to_string(), "which dprint".to_string()]);
}

#[test]
fn remembered_installation_is_reused_while_present() {
    let mut h = host();
    h.cached_is_file = true;
    let (result, _, log) = resolve(&h, None, Some("dprint-0.49.0/dprint"));
    assert_eq!(result.unwrap(), "dprint-0.49.0/dprint");
    assert!(!log.iter().any(|l| l.starts_with("fetch")));
}

#[test]
fn fresh_installation_downloads_and_cleans_up() {
    let mut h = host();
    h.entries = vec![
        "dprint-0.49.0".to_string(),
        "dprint-0.50.0".to_string(),
        "other".to_string(),
        "dprint-stale.zip".to_string(),
    ];
    let (result, cached, log) = resolve(&h, None, Some("dprint-0.49.0/dprint"));
    assert_eq!(result.as_deref(), Ok("dprint-0.50.0/dprint"));
    assert_eq!(cached.as_deref(), Some("dprint-0.50.0/dprint"));
    assert_eq!(
        log,
        vec![
            "read package.json",
            "which dprint",
            "check cached dprint-0.49.0/dprint",
            "status checking",
            "fetch dprint/dprint",
            "check installed dprint-0.50.0/dprint",
            "status downloading",
            "download https://example.com/linux into dprint-0.50.0",
            "verify dprint-0.50.0/dprint",
            "chmod dprint-0.50.0/dprint",
            "remove dprint-0.49.0,dprint-stale.zip",
            "status idle",
        ]
    );
}

#[test]
fn installed_release_is_not_downloaded_again() {
    let mut h = host();
    h.installed = true;
    h.os = Os::Windows;
    let (result, _, log) = resolve(&h, None, None);
    assert_eq!(result.as_deref(), Ok("dprint-0.50.0/dprint.exe"));
    assert!(!log.iter().any(|l| l.starts_with("download") || l.starts_with("chmod")));
    assert_eq!(log.last().map(String::as_str), Some("status idle"));
}

#[test]
fn release_fetch_failure_is_reported() {
    let mut h = host();
    h.release = Err("rate limited".to_string());
    let (result, cached, log) = resolve(&h, None, None);
    assert_eq!(result, Err("rate limited".to_string()));
    assert_eq!(cached, None);
    assert_eq!(log.last().map(String::as_str), Some("status failed: rate limited"));
}

#[test]
fn x86_installation_fails_after_downloading_status() {
    let mut h = host();
    h.architecture = Architecture::X86;
    let (result, _, log) = resolve(&h, None, None);
    assert_eq!(
        result,
        Err("dprint does not publish release binaries for 32-bit x86".to_string())
    );
    let n = log.len();
    assert_eq!(log[n - 2], "status downloading");
    assert_eq!(log[n - 1], "status failed: dprint does not publish release binaries for 32-bit x86");
}

#[test]
fn missing_asset_is_reported() {
    let mut h = host();
    h.release = Ok(("0.50.0".to_string(), vec![]));
    let (result, _, _) = resolve(&h, None, None);
    assert_eq!(
        result,
        Err("dprint release 0.50.0 has no dprint-x86_64-unknown-linux-gnu.zip asset".to_string())
    );
}

#[test]
fn failed_download_is_reported() {
    let mut h = host();
    h.download = Err("connection reset".to_string());
    let (result, cached, _) = resolve(&h, None, Some("old/dprint"));
    assert_eq!(result, Err("failed to download dprint 0.50.0: connection reset".to_string()));
    assert_eq!(cached.as_deref(), Some("old/dprint"));
}

#[test]
fn missing_executable_after_download_is_reported() {
    let mut h = host();
    h.present_after = false;
    let (result, _, _) = resolve(&h, None, None);
    assert_eq!(
        result,
        Err("dprint 0.50.0 was downloaded but its executable was not found at \"dprint-0.50.0/dprint\"".to_string())
    );
}

#[test]
fn chmod_failure_is_reported() {
    let mut h = host();
    h.make_executable = Err("permission denied".to_string());
    let (result, _, log) = resolve(&h, None, None);
    assert_eq!(result, Err("permission denied".to_string()));
    assert!(!log.iter().any(|l| l.starts_with("remove")));
}

#[test]
fn cleanup_keeps_the_current_release() {
    let names: Vec<String> = ["dprint-1", "dprint-2", "dprint", "x-dprint-3", "dprint-2"]
        .iter()
        .map(|s| s.to_string())
        .collect();
    assert_eq!(stale_release_entries(&names, "dprint-2"), vec!["dprint-1".to_string()]);
    assert!(!is_stale_release_entry("dprint-2", "dprint-2"));
    assert!(is_stale_release_entry("dprint-", "dprint-2"));
    assert!(!is_stale_release_entry("dprint", "dprint-2"));
}

#[test]
fn launch_settings_default_to_dprint_lsp() {
    let settings = launch_settings(None);
    assert_eq!(settings.configured_path, None);
    assert_eq!(settings.args, vec!["lsp".to_string()]);
    assert!(settings.env.is_empty());

    let settings = launch_settings(Some(BinarySettings {
        path: Some("/opt/dprint".to_string()),
        arguments: None,
        env: Some(vec![("DPRINT_CACHE_DIR".to_string(), "/tmp/cache".to_string())]),
    }));
    assert_eq!(settings.configured_path.as_deref(), Some("/opt/dprint"));
    assert_eq!(settings.args, vec!["lsp".to_string()]);
    assert_eq!(settings.env, vec![("DPRINT_CACHE_DIR".to_string(), "/tmp/cache".to_string())]);

    let settings = launch_settings(Some(BinarySettings {
        path: None,
        arguments: Some(vec!["lsp".to_string(), "--verbose".to_string()]),
        env: None,
    }));
    assert_eq!(settings.configured_path, None);
    assert_eq!(settings.args, vec!["lsp".to_string(), "--verbose".to_string()]);
    assert!(settings.env.is_empty());
}

#[test]
fn unparsable_or_unrelated_package_json_falls_through() {
    let mut h = host();
    h.package_json = Some("{ not json".to_string());
    h.which = Some("/usr/bin/dprint".to_string());
    let (result, _, _) = resolve(&h, None, None);
    assert_eq!(result.unwrap(), "/usr/bin/dprint");
    h.package_json = Some(r#"{ "dependencies": { "dprint": null } }"#.to_string());
    let (result, _, _) = resolve(&h, None, None);
    assert_eq!(result.unwrap(), "/usr/bin/dprint");
    h.package_json = Some(r#"{ "dependencies": { "dprint": "1.0.0" } }"#.to_string());
    let (result, _, _) = resolve(&h, None, None);
    assert_eq!(result.unwrap(), "/work/node_modules/.bin/dprint");
}

#[test]
fn missing_executable_message_renders_the_path_as_a_path() {
    let mut h = host();
    h.release = Ok((
        "0'1".to_string(),
        vec![("dprint-x86_64-unknown-linux-gnu.zip".to_string(), "https://example.com/linux".to_string())],
    ));
    h.present_after = false;
    let (result, _, _) = resolve(&h, None, None);
    assert_eq!(
        result,
        Err("dprint 0'1 was downloaded but its executable was not found at \"dprint-0'1/dprint\"".to_string())
    );
}
