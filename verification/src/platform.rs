//! The platforms that the extension host reports.

use vstd::prelude::*;

verus! {

/// Operating system of the machine that runs the editor.
#[derive(Clone, Copy, Debug, PartialEq, Eq, Structural)]
pub enum Os {
    Mac,
    Linux,
    Windows,
}

/// CPU architecture of the machine that runs the editor.
#[derive(Clone, Copy, Debug, PartialEq, Eq, Structural)]
pub enum Architecture {
    Aarch64,
    X86,
    X8664,
}

} // verus!
