//! Installing a dprint release: picking its asset, reporting failures, and finding the
//! downloads of other releases that may be removed.

use vstd::prelude::*;
use crate::release::RELEASE_DIRECTORY_PREFIX;
use crate::text::{concat3, has_prefix, same_text, starts_with};

verus! {

/// A downloadable file attached to a release.
pub struct ReleaseAsset {
    pub name: String,
    pub download_url: String,
}

/// A published release: its version and its assets.
pub struct Release {
    pub version: String,
    pub assets: Vec<ReleaseAsset>,
}

/// A release as values: its version and the name and download URL of each asset, in order.
pub struct ReleaseView {
    pub version: Seq<char>,
    pub assets: Seq<(Seq<char>, Seq<char>)>,
}

impl View for ReleaseAsset {
    type V = (Seq<char>, Seq<char>);

    open spec fn view(&self) -> (Seq<char>, Seq<char>) {
        (self.name@, self.download_url@)
    }
}

impl View for Release {
    type V = ReleaseView;

    open spec fn view(&self) -> ReleaseView {
        ReleaseView { version: self.version@, assets: self.assets@.map_values(|a: ReleaseAsset| a@) }
    }
}

/// The download URL of the first asset named `name`.
pub open spec fn asset_url(assets: Seq<(Seq<char>, Seq<char>)>, name: Seq<char>) -> Option<Seq<char>>
    decreases assets.len(),
{
    if assets.len() == 0 {
        None
    } else if assets[0].0 == name {
        Some(assets[0].1)
    } else {
        asset_url(assets.drop_first(), name)
    }
}

proof fn lemma_asset_url_skip(assets: Seq<(Seq<char>, Seq<char>)>, name: Seq<char>, i: int)
    requires
        0 <= i < assets.len(),
        assets[i].0 != name,
    ensures
        asset_url(assets.skip(i), name) == asset_url(assets.skip(i + 1), name),
{
    assert(assets.skip(i).drop_first() =~= assets.skip(i + 1));
}

/// The download URL of the first asset of `assets` named `name`.
pub fn find_asset_url(assets: &Vec<ReleaseAsset>, name: &str) -> (res: Option<String>)
    ensures
        match res {
            Some(url) => asset_url(assets@.map_values(|a: ReleaseAsset| a@), name@) == Some(url@),
            None => asset_url(assets@.map_values(|a: ReleaseAsset| a@), name@) is None,
        },
{
    let ghost view = assets@.map_values(|a: ReleaseAsset| a@);
    let n = assets.len();
    let mut i: usize = 0;
    assert(view.skip(0) =~= view);
    while i < n
        invariant
            n == assets@.len(),
            view == assets@.map_values(|a: ReleaseAsset| a@),
            i <= n,
            asset_url(view, name@) == asset_url(view.skip(i as int), name@),
        decreases n - i,
    {
        let asset = &assets[i];
        if same_text(asset.name.as_str(), name) {
            assert(view.skip(i as int)[0] == view[i as int]);
            return Some(asset.download_url.clone());
        }
        proof {
            lemma_asset_url_skip(view, name@, i as int);
        }
        i = i + 1;
    }
    None
}

/// The text of `{:?}` applied to a string: the string quoted, with special characters escaped.
pub uninterp spec fn debug_text(s: Seq<char>) -> Seq<char>;

/// Formats `s` with `core::fmt::Debug` (`format!("{:?}", s)`).
///
/// Trusted: the result is the standard library's debug rendering of `s`, a function of `s`
/// alone, which is all that is claimed.
#[verifier::external_body]
pub(crate) fn debug_format(s: &str) -> (res: String)
    ensures
        res@ == debug_text(s@),
{
    format!("{:?}", s)
}

/// The text of `{:?}` applied to the path `path`: the path quoted, with special characters
/// escaped as a path's debug rendering escapes them.
pub uninterp spec fn path_debug_text(path: Seq<char>) -> Seq<char>;

/// Formats the path `path` with `core::fmt::Debug` (`format!("{:?}", Path::new(path))`).
///
/// Trusted: the result is the standard library's debug rendering of the path, a function of
/// `path` alone, which is all that is claimed.
#[verifier::external_body]
pub(crate) fn debug_format_path(path: &str) -> (res: String)
    ensures
        res@ == path_debug_text(path@),
{
    format!("{:?}", std::path::Path::new(path))
}

/// The error for a release without an asset for this platform.
pub open spec fn no_asset_message(version: Seq<char>, asset_name: Seq<char>) -> Seq<char> {
    "dprint release "@ + version + " has no "@ + asset_name + " asset"@
}

/// The error for a failed download.
pub open spec fn download_failed_message(version: Seq<char>, error: Seq<char>) -> Seq<char> {
    "failed to download dprint "@ + version + ": "@ + error
}

/// The error for a download that did not produce the executable.
pub open spec fn missing_executable_message(version: Seq<char>, path: Seq<char>) -> Seq<char> {
    "dprint "@ + version + " was downloaded but its executable was not found at "@ + path_debug_text(path)
}

/// `dprint release <version> has no <asset_name> asset`.
pub fn no_asset_error(version: &str, asset_name: &str) -> (res: String)
    ensures
        res@ == no_asset_message(version@, asset_name@),
{
    let mut message = concat3("dprint release ", version, " has no ");
    message.append(asset_name);
    message.append(" asset");
    message
}

/// `failed to download dprint <version>: <error>`.
pub fn download_failed_error(version: &str, error: &str) -> (res: String)
    ensures
        res@ == download_failed_message(version@, error@),
{
    let mut message = concat3("failed to download dprint ", version, ": ");
    message.append(error);
    message
}

/// `dprint <version> was downloaded but its executable was not found at <path:?>`.
pub fn missing_executable_error(version: &str, path: &str) -> (res: String)
    ensures
        res@ == missing_executable_message(version@, path@),
{
    let quoted = debug_format_path(path);
    let mut message = concat3("dprint ", version, " was downloaded but its executable was not found at ");
    message.append(quoted.as_str());
    message
}

/// A directory entry named `name` is the download of another release than the one in `keep`.
pub open spec fn is_stale_entry(name: Seq<char>, keep: Seq<char>) -> bool {
    name != keep && starts_with(name, RELEASE_DIRECTORY_PREFIX@)
}

/// The entries of `names`, in order, that are downloads of other releases than `keep`.
pub open spec fn stale_entries(names: Seq<Seq<char>>, keep: Seq<char>) -> Seq<Seq<char>>
    decreases names.len(),
{
    if names.len() == 0 {
        Seq::empty()
    } else {
        let rest = stale_entries(names.drop_last(), keep);
        if is_stale_entry(names.last(), keep) {
            rest.push(names.last())
        } else {
            rest
        }
    }
}

/// Whether the directory entry `name` holds another release than the one in `keep`.
pub fn is_stale_release_entry(name: &str, keep: &str) -> (res: bool)
    ensures
        res == is_stale_entry(name@, keep@),
{
    !same_text(name, keep) && has_prefix(name, RELEASE_DIRECTORY_PREFIX)
}

/// The entries of `names`, in order, that hold other releases than the one in `keep`.
pub fn stale_release_entries(names: &Vec<String>, keep: &str) -> (res: Vec<String>)
    ensures
        res@.map_values(|s: String| s@) == stale_entries(names@.map_values(|s: String| s@), keep@),
{
    let ghost all = names@.map_values(|s: String| s@);
    let mut out: Vec<String> = Vec::new();
    let n = names.len();
    let mut i: usize = 0;
    while i < n
        invariant
            n == names@.len(),
            all == names@.map_values(|s: String| s@),
            i <= n,
            out@.map_values(|s: String| s@) == stale_entries(all.take(i as int), keep@),
        decreases n - i,
    {
        proof {
            assert(all.take(i + 1).drop_last() =~= all.take(i as int));
            assert(all.take(i + 1).last() == names@[i as int]@);
        }
        let name = &names[i];
        if is_stale_release_entry(name.as_str(), keep) {
            let ghost before = out@;
            out.push(name.clone());
            assert(out@.map_values(|s: String| s@) =~= before.map_values(|s: String| s@).push(name@));
        }
        i = i + 1;
    }
    assert(all.take(n as int) =~= all);
    out
}


/// Law: the cleanup removes exactly the listed entries that hold other downloads of dprint
/// releases; the directory of the release just installed is never among them.
pub proof fn law_cleanup_spares_current_release(names: Seq<Seq<char>>, keep: Seq<char>)
    ensures
        forall|name: Seq<char>| #[trigger] stale_entries(names, keep).contains(name)
            <==> (names.contains(name) && is_stale_entry(name, keep)),
        !stale_entries(names, keep).contains(keep),
    decreases names.len(),
{
    if names.len() > 0 {
        let init = names.drop_last();
        let last = names.last();
        let rest = stale_entries(init, keep);
        law_cleanup_spares_current_release(init, keep);
        assert forall|name: Seq<char>| #[trigger] stale_entries(names, keep).contains(name)
            <==> (names.contains(name) && is_stale_entry(name, keep)) by {
            if stale_entries(names, keep).contains(name) {
                let all = stale_entries(names, keep);
                let i = choose|i: int| 0 <= i < all.len() && all[i] == name;
                if i < rest.len() {
                    assert(rest[i] == name);
                    assert(rest.contains(name));
                    let j = choose|j: int| 0 <= j < init.len() && init[j] == name;
                    assert(names[j] == name);
                } else {
                    assert(name == last);
                    assert(names[names.len() - 1] == name);
                }
            }
            if names.contains(name) && is_stale_entry(name, keep) {
                let j = choose|j: int| 0 <= j < names.len() && names[j] == name;
                if j < names.len() - 1 {
                    assert(init[j] == name);
                    assert(init.contains(name));
                    assert(rest.contains(name));
                    let i = choose|i: int| 0 <= i < rest.len() && rest[i] == name;
                    if is_stale_entry(last, keep) {
                        assert(rest.push(last)[i] == name);
                    }
                } else {
                    assert(rest.push(last)[rest.len() as int] == name);
                }
            }
        }
    }
}

} // verus!
