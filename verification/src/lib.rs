//! Verified core of a Zed extension that launches `dprint lsp`.
//!
//! The library decides which `dprint` executable Zed should launch, which release asset to
//! download for a platform, where a downloaded release lives, and which stale downloads may be
//! removed. The host interaction (settings, files, network) is performed by the caller, which
//! feeds the answers back into the decision functions of this crate.

pub mod platform;
pub mod text;
pub mod release;
pub mod paths;
pub mod json;
pub mod install;
pub mod resolve;
pub mod command;
pub mod dprint;
pub mod dprint_resolve;
