//! Names and locations of dprint releases and of the worktree's npm command shim.

use vstd::prelude::*;
use crate::platform::{Architecture, Os};
use crate::paths::{join_path, joined};

verus! {

/// The GitHub repository that publishes dprint releases.
pub const DPRINT_REPOSITORY: &'static str = "dprint/dprint";
/// The name of the dprint executable.
pub const DPRINT_BINARY_NAME: &'static str = "dprint";
/// The prefix of every directory into which a release is downloaded.
pub const RELEASE_DIRECTORY_PREFIX: &'static str = "dprint-";
/// The npm command shim of a worktree that depends on dprint.
pub const NPM_BINARY_PATH: &'static str = "node_modules/.bin/dprint";
/// The npm command shim of a worktree that depends on dprint, on Windows.
pub const NPM_BINARY_PATH_WINDOWS: &'static str = "node_modules/.bin/dprint.cmd";
/// The error reported when no release binary exists for the machine's architecture.
pub const X86_UNSUPPORTED: &'static str = "dprint does not publish release binaries for 32-bit x86";
/// The argument that starts dprint as a language server.
pub const LSP_ARGUMENT: &'static str = "lsp";

/// The architecture part of a release asset name, if dprint publishes binaries for it.
pub open spec fn architecture_label(architecture: Architecture) -> Option<Seq<char>> {
    match architecture {
        Architecture::X8664 => Some("x86_64"@),
        Architecture::Aarch64 => Some("aarch64"@),
        Architecture::X86 => None,
    }
}

/// The target triple tail of a release asset name.
pub open spec fn os_target(os: Os) -> Seq<char> {
    match os {
        Os::Linux => "unknown-linux-gnu"@,
        Os::Mac => "apple-darwin"@,
        Os::Windows => "pc-windows-msvc"@,
    }
}

/// The name of the zip asset of a release for a platform, or the error for an unsupported one.
pub open spec fn asset_name_spec(architecture: Architecture, os: Os) -> Result<Seq<char>, Seq<char>> {
    match architecture_label(architecture) {
        Some(label) => Ok("dprint-"@ + label + "-"@ + os_target(os) + ".zip"@),
        None => Err(X86_UNSUPPORTED@),
    }
}

/// The directory that holds the release `version`.
pub open spec fn release_directory_spec(version: Seq<char>) -> Seq<char> {
    RELEASE_DIRECTORY_PREFIX@ + version
}

/// The file name of the dprint executable on `os`.
pub open spec fn executable_name(os: Os) -> Seq<char> {
    match os {
        Os::Windows => "dprint.exe"@,
        Os::Mac | Os::Linux => DPRINT_BINARY_NAME@,
    }
}

/// The path of the executable of the release `version` on `os`.
pub open spec fn release_binary_path_spec(version: Seq<char>, os: Os) -> Seq<char> {
    joined(release_directory_spec(version), executable_name(os))
}

/// The worktree-relative path of the npm command shim on `os`.
pub open spec fn worktree_binary_path_spec(os: Os) -> Seq<char> {
    match os {
        Os::Windows => NPM_BINARY_PATH_WINDOWS@,
        Os::Mac | Os::Linux => NPM_BINARY_PATH@,
    }
}

/// The arguments that start dprint as a language server: `["lsp"]`.
pub fn default_language_server_args() -> (res: Vec<String>)
    ensures
        res@.len() == 1,
        res@[0]@ == LSP_ARGUMENT@,
{
    let mut args = Vec::new();
    args.push(String::from_str(LSP_ARGUMENT));
    args
}

/// The worktree-relative path of the npm command shim on `os`.
pub fn worktree_dprint_binary_path(os: Os) -> (res: &'static str)
    ensures
        res@ == worktree_binary_path_spec(os),
{
    match os {
        Os::Windows => NPM_BINARY_PATH_WINDOWS,
        Os::Mac | Os::Linux => NPM_BINARY_PATH,
    }
}

/// The name of the zip asset that holds dprint for `architecture` and `os`; 32-bit x86 has none.
pub fn release_asset_name(architecture: Architecture, os: Os) -> (res: Result<String, String>)
    ensures
        asset_name_spec(architecture, os) matches Ok(name) ==> (res matches Ok(s) && s@ == name),
        asset_name_spec(architecture, os) matches Err(message) ==> (res matches Err(e) && e@ == message),
{
    let label = match architecture {
        Architecture::X8664 => "x86_64",
        Architecture::Aarch64 => "aarch64",
        Architecture::X86 => {
            return Err(String::from_str(X86_UNSUPPORTED));
        },
    };
    let target = match os {
        Os::Linux => "unknown-linux-gnu",
        Os::Mac => "apple-darwin",
        Os::Windows => "pc-windows-msvc",
    };
    let mut name = String::from_str("dprint-");
    name.append(label);
    name.append("-");
    name.append(target);
    name.append(".zip");
    Ok(name)
}

/// The directory that holds the release `version`: `dprint-<version>`.
pub fn release_directory(version: &str) -> (res: String)
    ensures
        res@ == release_directory_spec(version@),
{
    let mut directory = String::from_str(RELEASE_DIRECTORY_PREFIX);
    directory.append(version);
    directory
}

/// The path of the dprint executable inside the directory of the release `version`.
pub fn release_binary_path(version: &str, os: Os) -> (res: String)
    ensures
        res@ == release_binary_path_spec(version@, os),
{
    let file_name = match os {
        Os::Windows => "dprint.exe",
        Os::Mac | Os::Linux => DPRINT_BINARY_NAME,
    };
    let directory = release_directory(version);
    join_path(directory.as_str(), file_name)
}

} // verus!
