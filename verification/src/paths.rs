//! Paths as the extension builds them.
//!
//! Every path the extension works with is built from UTF-8 text, and the extension runs on a
//! WASI host whose paths use `/` as separator, so paths are held as `String`s here.

use vstd::prelude::*;

verus! {

/// The path obtained by appending `name` to `base`, as `PathBuf::push` does on a host whose
/// separator is `/`: an absolute `name` replaces `base`; otherwise a separator is inserted
/// unless `base` is empty or already ends with one.
pub open spec fn joined(base: Seq<char>, name: Seq<char>) -> Seq<char> {
    if name.len() > 0 && name[0] == '/' {
        name
    } else if base.len() == 0 || base.last() == '/' {
        base + name
    } else {
        base + seq!['/'] + name
    }
}

/// Appends the relative or absolute path `name` to `base`.
pub fn join_path(base: &str, name: &str) -> (res: String)
    ensures
        res@ == joined(base@, name@),
{
    let name_len = name.unicode_len();
    if name_len > 0 && name.get_char(0) == '/' {
        return String::from_str(name);
    }
    let base_len = base.unicode_len();
    let mut out = String::from_str(base);
    if base_len > 0 && base.get_char(base_len - 1) != '/' {
        proof {
            reveal_strlit("/");
        }
        out.append("/");
    }
    out.append(name);
    out
}

/// The command string for launching the executable at `path`.
///
/// Paths are built from UTF-8 text, so every path has a command string: the path itself.
pub fn path_to_command(path: &str) -> (res: Result<String, String>)
    ensures
        res matches Ok(command) && command@ == path@,
{
    Ok(String::from_str(path))
}

} // verus!
