//! The launch settings of the language server: arguments and environment from the user's
//! binary settings, with `dprint lsp` as the default.

use vstd::prelude::*;
use crate::release::{default_language_server_args, LSP_ARGUMENT};

verus! {

/// The user's settings for the language server binary.
pub struct BinarySettings {
    pub path: Option<String>,
    pub arguments: Option<Vec<String>>,
    /// The environment variables; the settings hold them in a map, so their order is arbitrary.
    pub env: Option<Vec<(String, String)>>,
}

/// What the language server is launched with, apart from the executable.
pub struct LaunchSettings {
    /// The executable the user configured, if any.
    pub configured_path: Option<String>,
    pub args: Vec<String>,
    pub env: Vec<(String, String)>,
}

/// `args` is the default argument list `["lsp"]`.
pub open spec fn is_default_args(args: Seq<String>) -> bool {
    args.len() == 1 && args[0]@ == LSP_ARGUMENT@
}

/// The launch settings for the binary settings `binary`: the configured path, the configured
/// arguments or `["lsp"]`, and the configured environment or none.
pub fn launch_settings(binary: Option<BinarySettings>) -> (res: LaunchSettings)
    ensures
        match binary {
            None => {
                &&& res.configured_path is None
                &&& is_default_args(res.args@)
                &&& res.env@.len() == 0
            },
            Some(b) => {
                &&& res.configured_path == b.path
                &&& match b.arguments {
                    Some(args) => res.args@ == args@,
                    None => is_default_args(res.args@),
                }
                &&& match b.env {
                    Some(env) => res.env@ == env@,
                    None => res.env@.len() == 0,
                }
            },
        },
{
    match binary {
        None => LaunchSettings {
            configured_path: None,
            args: default_language_server_args(),
            env: Vec::new(),
        },
        Some(b) => {
            let args = match b.arguments {
                Some(args) => args,
                None => default_language_server_args(),
            };
            let env = match b.env {
                Some(env) => env,
                None => Vec::new(),
            };
            LaunchSettings { configured_path: b.path, args, env }
        },
    }
}

} // verus!
