//! Relative paths for `path:` completions. The component arithmetic is
//! std's `Path` and the `pathdiff` crate; the choice between them is ours.
use vstd::prelude::*;

use std::path::Path;

verus! {

/// The view of an optional string.
pub open spec fn opt_text(o: Option<String>) -> Option<Seq<char>> {
    match o {
        Some(s) => Some(s@),
        None => None,
    }
}

/// The view of an optional string slice.
pub open spec fn opt_str(o: Option<&str>) -> Option<Seq<char>> {
    match o {
        Some(s) => Some(s@),
        None => None,
    }
}

/// What `std::path::Path::parent` gives for a path, as text (on the platform
/// the library is built for).
pub uninterp spec fn path_parent(path: Seq<char>) -> Option<Seq<char>>;

/// What `std::path::Path::strip_prefix` gives for a path and a base, as text
/// (`None` when the base is not a prefix of the path's components).
pub uninterp spec fn path_strip_prefix(path: Seq<char>, base: Seq<char>) -> Option<Seq<char>>;

/// What `pathdiff::diff_paths` gives for a path and a base directory, as text.
pub uninterp spec fn path_diff(path: Seq<char>, base: Seq<char>) -> Option<Seq<char>>;

/// `std::path::Path::parent`: the path without its final component; `None`
/// for a root or an empty path. The result is only named.
#[verifier::external_body]
pub(crate) fn parent_of(path: &str) -> (r: Option<String>)
    ensures
        opt_text(r) == path_parent(path@),
{
    Path::new(path).parent().map(|p| p.to_string_lossy().to_string())
}

/// `std::path::Path::strip_prefix`: the rest of `path` after the components
/// of `base`. The result is only named.
#[verifier::external_body]
pub(crate) fn strip_prefix_of(path: &str, base: &str) -> (r: Option<String>)
    ensures
        opt_text(r) == path_strip_prefix(path@, base@),
{
    Path::new(path).strip_prefix(base).ok().map(|p| p.to_string_lossy().to_string())
}

/// `pathdiff::diff_paths`: the path from the directory `base` to `path`
/// (`None` when it cannot be expressed). The result is only named.
#[verifier::external_body]
pub(crate) fn diff_paths(path: &str, base: &str) -> (r: Option<String>)
    ensures
        opt_text(r) == path_diff(path@, base@),
{
    pathdiff::diff_paths(path, base).map(|p| p.to_string_lossy().to_string())
}

/// The path of `target` as a completion shows it: relative to the directory
/// of the current file when there is one and the difference exists, else
/// relative to the workspace root, else unchanged.
pub open spec fn relative_path(target: Seq<char>, current_file: Option<Seq<char>>, root: Seq<char>) -> Seq<char> {
    let via_current = match current_file {
        Some(c) => match path_parent(c) {
            Some(dir) => path_diff(target, dir),
            None => None,
        },
        None => None,
    };
    match via_current {
        Some(r) => r,
        None => match path_strip_prefix(target, root) {
            Some(r) => r,
            None => target,
        },
    }
}

/// The path of `target` relative to the current file's directory, or to the
/// workspace root.
pub fn calculate_relative_path(target: &str, current_file: Option<&str>, workspace_root: &str) -> (r: String)
    ensures
        r@ == relative_path(target@, opt_str(current_file), workspace_root@),
{
    if let Some(current) = current_file {
        if let Some(dir) = parent_of(current) {
            if let Some(rel) = diff_paths(target, dir.as_str()) {
                return rel;
            }
        }
    }
    match strip_prefix_of(target, workspace_root) {
        Some(rel) => rel,
        None => target.to_owned(),
    }
}

/// The directory whose subdirectories a path completion lists: the
/// workspace root, else the current file's directory (`.` when it has
/// none), else nothing.
pub open spec fn scan_base(current_file: Option<Seq<char>>, workspace_root: Option<Seq<char>>) -> Option<Seq<char>> {
    match workspace_root {
        Some(root) => Some(root),
        None => match current_file {
            Some(f) => match path_parent(f) {
                Some(d) => Some(d),
                None => Some("."@),
            },
            None => None,
        },
    }
}

/// The directory whose subdirectories a path completion lists.
pub fn path_scan_base(current_file: Option<&str>, workspace_root: Option<&str>) -> (r: Option<String>)
    ensures
        opt_text(r) == scan_base(opt_str(current_file), opt_str(workspace_root)),
{
    match workspace_root {
        Some(root) => Some(root.to_owned()),
        None => match current_file {
            Some(f) => match parent_of(f) {
                Some(d) => Some(d),
                None => Some(".".to_owned()),
            },
            None => None,
        },
    }
}

} // verus!
