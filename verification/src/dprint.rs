//! The installer as a set of configuration records: where releases come from, how their
//! downloads are named, and where a worktree keeps its dprint command shim.
//!
//! This layout also checks a worktree's `deno.json` import map. Its installer shows that it
//! checks for an update and that it downloads, and reports errors to the caller without showing
//! a final status.

use vstd::prelude::*;
use crate::command::{is_default_args, BinarySettings, LaunchSettings};
use crate::json::{has_non_null_key, json_object_has_non_null_key, JsonValue};
use crate::paths::{join_path, joined};
use crate::platform::{Architecture, Os};
use crate::release::{architecture_label, default_language_server_args, os_target};

verus! {

/// The error for an architecture without release binaries.
pub const UNSUPPORTED_ARCHITECTURE: &'static str =
    "unsupported architecture: x86; install dprint on your machine or worktree instead";

/// Where releases come from and how their downloads are named.
pub struct AutoInstallerConfig {
    pub github_repo: &'static str,
    pub release_folder_prefix: &'static str,
}

/// Where a worktree keeps its dprint command and which package provides it.
pub struct WorktreeConfig {
    pub binary_basename: &'static str,
    pub worktree_binary_path: &'static str,
    pub windows_worktree_binary_path: &'static str,
    pub node_package_name: &'static str,
}

/// The configuration of the whole installer.
pub struct InstallerConfig {
    pub auto_installer: AutoInstallerConfig,
    pub worktree: WorktreeConfig,
}

/// The file name suffix of executables on `os`.
pub open spec fn executable_suffix(os: Os) -> Seq<char> {
    match os {
        Os::Windows => ".exe"@,
        Os::Mac | Os::Linux => ""@,
    }
}

/// The directory that holds the release `version` under the folder prefix `prefix`.
pub open spec fn release_dir_spec(prefix: Seq<char>, version: Seq<char>) -> Seq<char> {
    prefix + version
}

/// The executable of the release `version` under the folder prefix `prefix`, on `os`.
pub open spec fn installed_binary_spec(prefix: Seq<char>, version: Seq<char>, os: Os) -> Seq<char> {
    joined(release_dir_spec(prefix, version), "dprint"@ + executable_suffix(os))
}

/// The release asset for a platform, or the error for an unsupported architecture.
pub open spec fn config_asset_name_spec(architecture: Architecture, os: Os) -> Result<Seq<char>, Seq<char>> {
    match architecture_label(architecture) {
        Some(label) => Ok("dprint-"@ + label + "-"@ + os_target(os) + ".zip"@),
        None => Err(UNSUPPORTED_ARCHITECTURE@),
    }
}

/// The worktree-relative command shim on `os`, as configured in `config`.
pub open spec fn worktree_shim_spec(config: WorktreeConfig, os: Os) -> Seq<char> {
    match os {
        Os::Windows => config.windows_worktree_binary_path@,
        Os::Mac | Os::Linux => config.worktree_binary_path@,
    }
}

impl AutoInstallerConfig {
    /// The executable inside the directory of the release `version`: `dprint`, or
    /// `dprint.exe` on Windows.
    pub fn binary_path(&self, version: &str, os: Os) -> (res: String)
        ensures
            res@ == installed_binary_spec(self.release_folder_prefix@, version@, os),
    {
        let file_extension = match os {
            Os::Windows => ".exe",
            Os::Mac | Os::Linux => "",
        };
        let mut file_name = String::from_str("dprint");
        file_name.append(file_extension);
        let directory = self.release_dir_name(version);
        join_path(directory.as_str(), file_name.as_str())
    }

    /// The name of the zip asset for `architecture` and `os`; 32-bit x86 has none.
    pub fn asset_name(&self, architecture: Architecture, os: Os) -> (res: Result<String, String>)
        ensures
            config_asset_name_spec(architecture, os) matches Ok(name) ==> (res matches Ok(s) && s@ == name),
            config_asset_name_spec(architecture, os) matches Err(message) ==> (res matches Err(e) && e@ == message),
    {
        let architecture = match architecture {
            Architecture::X8664 => "x86_64",
            Architecture::Aarch64 => "aarch64",
            Architecture::X86 => {
                return Err(String::from_str(UNSUPPORTED_ARCHITECTURE));
            },
        };
        let os = match os {
            Os::Linux => "unknown-linux-gnu",
            Os::Mac => "apple-darwin",
            Os::Windows => "pc-windows-msvc",
        };
        let mut name = String::from_str("dprint-");
        name.append(architecture);
        name.append("-");
        name.append(os);
        name.append(".zip");
        Ok(name)
    }

    /// The directory that holds the release `version`: the folder prefix followed by it.
    pub fn release_dir_name(&self, version: &str) -> (res: String)
        ensures
            res@ == release_dir_spec(self.release_folder_prefix@, version@),
    {
        let mut name = String::from_str(self.release_folder_prefix);
        name.append(version);
        name
    }
}

impl WorktreeConfig {
    /// The worktree-relative command shim on `os`.
    pub fn binary_path(&self, os: Os) -> (res: &str)
        ensures
            res@ == worktree_shim_spec(*self, os),
    {
        match os {
            Os::Windows => self.windows_worktree_binary_path,
            Os::Mac | Os::Linux => self.worktree_binary_path,
        }
    }
}

/// The installer configuration for dprint.
pub fn dprint_config() -> (res: InstallerConfig)
    ensures
        res.auto_installer.github_repo@ == "dprint/dprint"@,
        res.auto_installer.release_folder_prefix@ == "dprint-"@,
        res.worktree.binary_basename@ == "dprint"@,
        res.worktree.worktree_binary_path@ == "node_modules/.bin/dprint"@,
        res.worktree.windows_worktree_binary_path@ == "node_modules/.bin/dprint.cmd"@,
        res.worktree.node_package_name@ == "dprint"@,
{
    InstallerConfig {
        auto_installer: AutoInstallerConfig {
            github_repo: "dprint/dprint",
            release_folder_prefix: "dprint-",
        },
        worktree: WorktreeConfig {
            binary_basename: "dprint",
            worktree_binary_path: "node_modules/.bin/dprint",
            windows_worktree_binary_path: "node_modules/.bin/dprint.cmd",
            node_package_name: "dprint",
        },
    }
}

/// A `package.json` document lists `package_name` under `dependencies` or `devDependencies`.
pub open spec fn declares_package(package_json: JsonValue, package_name: Seq<char>) -> bool {
    has_non_null_key(package_json, "dependencies"@, package_name)
        || has_non_null_key(package_json, "devDependencies"@, package_name)
}

/// A `deno.json` document maps `package_name` in its import map.
pub open spec fn imports_package(deno_json: JsonValue, package_name: Seq<char>) -> bool {
    has_non_null_key(deno_json, "imports"@, package_name)
}

/// Whether `package_json` lists `package_name` as a regular or a development dependency.
pub fn package_json_declares_dependency(package_json: &JsonValue, package_name: &str) -> (res: bool)
    ensures
        res == declares_package(*package_json, package_name@),
{
    json_object_has_non_null_key(package_json, "dependencies", package_name)
        || json_object_has_non_null_key(package_json, "devDependencies", package_name)
}

/// Whether the import map of `deno_json` maps `package_name`.
pub fn deno_json_declares_import(deno_json: &JsonValue, package_name: &str) -> (res: bool)
    ensures
        res == imports_package(*deno_json, package_name@),
{
    json_object_has_non_null_key(deno_json, "imports", package_name)
}


/// What the language server is launched with in this layout: the configured path, the
/// configured arguments or `["lsp"]`, and no environment variables.
pub fn command_settings(binary: Option<BinarySettings>) -> (res: LaunchSettings)
    ensures
        res.env@.len() == 0,
        match binary {
            None => res.configured_path is None && is_default_args(res.args@),
            Some(b) => {
                &&& res.configured_path == b.path
                &&& match b.arguments {
                    Some(args) => res.args@ == args@,
                    None => is_default_args(res.args@),
                }
            },
        },
{
    let (configured_path, configured_arguments) = match binary {
        Some(b) => (b.path, b.arguments),
        None => (None, None),
    };
    let args = match configured_arguments {
        Some(args) => args,
        None => default_language_server_args(),
    };
    LaunchSettings { configured_path, args, env: Vec::new() }
}

} // verus!
