//! Paths as text.

use vstd::prelude::*;

use crate::text::opt_view;

verus! {

/// What `Path::parent` of std makes of a path.
pub uninterp spec fn parent_path(path: Seq<char>) -> Option<Seq<char>>;

/// `Path::parent` of std: the path without its last component, if it has one. The result depends
/// on the path alone and is called `parent_path`.
#[verifier::external_body]
pub(crate) fn parent_of(path: &str) -> (r: Option<String>)
    ensures
        opt_view(r) == parent_path(path@),
{
    std::path::Path::new(path).parent().and_then(|p| p.to_str()).map(|p| p.to_string())
}

/// What `Path::file_stem` of std makes of a path.
pub uninterp spec fn file_stem(path: Seq<char>) -> Option<Seq<char>>;

/// `Path::file_stem` of std: the file name without its extension, if there is a file name. The
/// result depends on the path alone and is called `file_stem`.
#[verifier::external_body]
pub(crate) fn stem_of(path: &str) -> (r: Option<String>)
    ensures
        opt_view(r) == file_stem(path@),
{
    std::path::Path::new(path).file_stem().and_then(|s| s.to_str()).map(|s| s.to_string())
}

/// What `Path::extension` of std makes of a path.
pub uninterp spec fn extension(path: Seq<char>) -> Option<Seq<char>>;

/// `Path::extension` of std: the part of the file name behind its last dot, if there is one. The
/// result depends on the path alone and is called `extension`.
#[verifier::external_body]
pub(crate) fn extension_of(path: &str) -> (r: Option<String>)
    ensures
        opt_view(r) == extension(path@),
{
    std::path::Path::new(path).extension().and_then(|s| s.to_str()).map(|s| s.to_string())
}

/// What `Path::file_name` of std makes of a path.
pub uninterp spec fn file_name(path: Seq<char>) -> Option<Seq<char>>;

/// `Path::file_name` of std: the last component of the path, if that is a name. The result
/// depends on the path alone and is called `file_name`.
#[verifier::external_body]
pub(crate) fn name_of(path: &str) -> (r: Option<String>)
    ensures
        opt_view(r) == file_name(path@),
{
    std::path::Path::new(path).file_name().and_then(|s| s.to_str()).map(|s| s.to_string())
}

/// What `Path::join` of std makes of two paths.
pub uninterp spec fn path_joined(base: Seq<char>, rel: Seq<char>) -> Seq<char>;

/// `Path::join` of std: the second path inside the first one, or the second path itself where it is
/// absolute. The result depends on the two paths alone and is called `path_joined`; how the parts
/// are separated is left to std.
#[verifier::external_body]
pub(crate) fn join_path(base: &str, rel: &str) -> (r: String)
    ensures
        r@ == path_joined(base@, rel@),
{
    std::path::Path::new(base).join(rel).to_string_lossy().into_owned()
}

/// What std's `Debug` formatting makes of a path.
pub uninterp spec fn debug_path(path: Seq<char>) -> Seq<char>;

/// The `Debug` formatting of `Path` in std: the path in quotes, with escapes. The result depends
/// on the path alone and is called `debug_path`.
#[verifier::external_body]
pub(crate) fn format_path(path: &str) -> (r: String)
    ensures
        r@ == debug_path(path@),
{
    format!("{:?}", std::path::Path::new(path))
}

/// The root of a workspace whose members are two levels below it; the directory itself where it
/// has no two levels above it.
pub open spec fn workspace_root_of(manifest_dir: Seq<char>) -> Seq<char> {
    match parent_path(manifest_dir) {
        Some(p) => match parent_path(p) {
            Some(root) => root,
            None => manifest_dir,
        },
        None => manifest_dir,
    }
}

/// The directory two levels above a directory, or the directory itself; `above` is the directory
/// above it, and `top` is the one above that.
pub fn two_levels_up(dir: &str, above: &Option<String>, top: &Option<String>) -> (r: String)
    ensures
        r@ == (match (opt_view(*above), opt_view(*top)) {
            (Some(_), Some(t)) => t,
            _ => dir@,
        }),
{
    match above {
        Some(_) => match top {
            Some(t) => t.clone(),
            None => dir.to_owned(),
        },
        None => dir.to_owned(),
    }
}

/// The root of the workspace that a member's directory is in.
pub fn get_workspace_root(manifest_dir: &str) -> (r: String)
    ensures
        r@ == workspace_root_of(manifest_dir@),
{
    let above: Option<String> = parent_of(manifest_dir);
    let top: Option<String> = match &above {
        Some(p) => parent_of(p.as_str()),
        None => None,
    };
    two_levels_up(manifest_dir, &above, &top)
}

} // verus!
