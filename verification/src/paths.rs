//! Paths, held as text, and how one is anchored under another.
//!
//! Joining follows the host: the work is done by `std::path`, and the
//! contracts speak of its answers by name.

use vstd::prelude::*;

verus! {

/// What `std::path::Path::is_absolute` answers for the path written as `path`.
pub uninterp spec fn is_absolute_path(path: Seq<char>) -> bool;

/// The text of the path that `std::path::Path::join` builds when `path` is
/// adjoined to `base`.
pub uninterp spec fn joined_path(base: Seq<char>, path: Seq<char>) -> Seq<char>;

/// Where `path` points when it is given by someone standing in `base`: an
/// absolute path stands for itself, any other is adjoined to `base`.
pub open spec fn anchored(base: Seq<char>, path: Seq<char>) -> Seq<char> {
    if is_absolute_path(path) {
        path
    } else {
        joined_path(base, path)
    }
}

/// The working directory that a command asks for: the caller's current
/// directory, or the override it names, anchored under that directory.
pub open spec fn working_dir(current_dir: Seq<char>, cwd: Option<Seq<char>>) -> Seq<char> {
    match cwd {
        Some(path) => anchored(current_dir, path),
        None => current_dir,
    }
}

/// Calls `std::path::Path::is_absolute` on the path written as `path`.
/// Trusted: the answer is the one named by [`is_absolute_path`].
#[verifier::external_body]
pub(crate) fn path_is_absolute(path: &str) -> (r: bool)
    ensures
        r == is_absolute_path(path@),
{
    std::path::Path::new(path).is_absolute()
}

/// Calls `std::path::Path::join` to adjoin `path` to `base`.
/// Trusted: the result is the one named by [`joined_path`], and, as the
/// documentation of `join` says, an absolute `path` replaces `base` outright.
#[verifier::external_body]
pub(crate) fn join_path(base: &str, path: &str) -> (r: String)
    ensures
        r@ == joined_path(base@, path@),
        is_absolute_path(path@) ==> r@ == path@,
{
    std::path::Path::new(base).join(path).to_string_lossy().into_owned()
}

/// Anchors `path` under `base`.
pub fn anchor(base: &str, path: &str) -> (r: String)
    ensures
        r@ == anchored(base@, path@),
{
    join_path(base, path)
}

/// Anchors `path` under `base` unless it is absolute, in which case it is
/// handed back as it came.
pub fn anchor_if_relative(base: &str, path: String) -> (r: String)
    ensures
        r@ == anchored(base@, path@),
{
    if path_is_absolute(path.as_str()) {
        path
    } else {
        join_path(base, path.as_str())
    }
}

/// The working directory for a command issued from `current_dir` that may
/// name an override.
pub fn resolve_working_dir(current_dir: String, cwd: Option<String>) -> (r: String)
    ensures
        r@ == working_dir(current_dir@, cwd.deep_view()),
{
    match cwd {
        Some(path) => anchor(current_dir.as_str(), path.as_str()),
        None => current_dir,
    }
}

/// A relative override is joined under the current directory, an absolute one
/// replaces it, and without an override the current directory stands.
pub proof fn lemma_working_dir(current_dir: Seq<char>, cwd: Seq<char>)
    ensures
        is_absolute_path(cwd) ==> working_dir(current_dir, Some(cwd)) == cwd,
        !is_absolute_path(cwd) ==> working_dir(current_dir, Some(cwd)) == joined_path(
            current_dir,
            cwd,
        ),
        working_dir(current_dir, None) == current_dir,
{
}

} // verus!
