//! Path expansion and executable checks.
use vstd::prelude::*;

use crate::text::str_eq;

verus! {

/// Whether a path needs no expansion: it holds no `$` and does not start with `~`.
pub open spec fn plain_path(path: Seq<char>) -> bool {
    !path.contains('$') && !(path.len() > 0 && path[0] == '~')
}

/// Whether a path starts with a `~` that stands for the home directory: the
/// `~` alone, or followed by a separator (`/`, or `\\` on Windows).
pub open spec fn home_tilde(path: Seq<char>) -> bool {
    &&& path.len() > 0
    &&& path[0] == '~'
    &&& (path.len() == 1 || path[1] == '/' || path[1] == '\\')
}

/// What holds of expanding a path that holds no `$`, in every environment:
/// it comes back unchanged, or, when it starts with a home `~`, as some home
/// directory followed by what comes after the `~`.
pub open spec fn tilde_expansion(path: Seq<char>, r: Seq<char>) -> bool {
    ||| r == path
    ||| (home_tilde(path) && exists|home: Seq<char>| r == home + path.skip(1))
}

/// Calls shellexpand's `full`, which replaces a leading `~` by the home
/// directory and `$VAR` / `${VAR}` by environment variables. What it gives
/// depends on the environment, so the contract states only what its source
/// shows for every environment: a path holding no `$` is expanded without
/// fail, and comes back unchanged unless it starts with a home `~`, which
/// is then either kept (no home directory is known) or replaced by the home
/// directory. `None` stands for a variable lookup that failed.
#[verifier::external_body]
fn shell_expand(path: &str) -> (r: Option<String>)
    ensures
        plain_path(path@) ==> (r is Some && r.unwrap()@ == path@),
        !path@.contains('$') ==> (r is Some && tilde_expansion(path@, r.unwrap()@)),
{
    shellexpand::full(path).ok().map(|c| c.into_owned())
}

/// The expanded path, or the path itself when expansion failed.
pub fn expanded_or_input(expanded: Option<String>, path: &str) -> (r: String)
    ensures
        match expanded {
            Some(s) => r@ == s@,
            None => r@ == path@,
        },
{
    match expanded {
        Some(s) => s,
        None => path.to_owned(),
    }
}

/// Expands `~` and environment variables in a path; a path with neither
/// comes back unchanged, and so does any path whose expansion fails. A path
/// without `$` that starts with `~/` (or is `~`) comes back unchanged or as
/// a home directory followed by the rest of the path.
pub fn expand(path: &str) -> (r: String)
    ensures
        plain_path(path@) ==> r@ == path@,
        !path@.contains('$') ==> tilde_expansion(path@, r@),
{
    let expanded = shell_expand(path);
    expanded_or_input(expanded, path)
}

/// Whether Unix permission bits grant execution to anyone.
pub fn is_executable_mode(mode: u32) -> (r: bool)
    ensures
        r == (mode & 0o111 != 0),
{
    mode & 0o111 != 0
}

/// The lowercase form of a string, as `str::to_lowercase` gives it.
pub uninterp spec fn lowercase(s: Seq<char>) -> Seq<char>;

/// Calls `str::to_lowercase`. The contract names the result `lowercase` of
/// the characters; Unicode's case mapping is not stated.
#[verifier::external_body]
fn to_lowercase(s: &str) -> (r: String)
    ensures
        r@ == lowercase(s@),
{
    s.to_lowercase()
}

/// Whether a lowercased extension is one Windows runs.
pub open spec fn executable_extension(ext: Seq<char>) -> bool {
    ext == "exe"@ || ext == "bat"@ || ext == "cmd"@ || ext == "com"@ || ext == "ps1"@
}

/// Whether a file extension marks a Windows executable: "exe", "bat", "cmd",
/// "com" or "ps1", in any case. A path without an extension is not one.
pub fn has_executable_extension(ext: Option<&str>) -> (r: bool)
    ensures
        r == (ext matches Some(e) && executable_extension(lowercase(e@))),
{
    match ext {
        None => false,
        Some(e) => {
            let lower = to_lowercase(e);
            let l = lower.as_str();
            str_eq(l, "exe") || str_eq(l, "bat") || str_eq(l, "cmd") || str_eq(l, "com") || str_eq(l, "ps1")
        },
    }
}

} // verus!
