//! Naming the entries of a zip archive. Walking directories, compressing and
//! writing files are left to the caller.
use vstd::prelude::*;
use vstd::string::StrSliceExecFns;
use vstd::string::StringExecFns;

use crate::text::chars_of;

verus! {

/// A path with each backslash turned into a forward slash.
pub open spec fn forward_slashes(path: Seq<char>) -> Seq<char> {
    path.map_values(|c: char| if c == '\\' { '/' } else { c })
}

/// Turning backslashes into slashes leaves no backslash, keeps the length
/// and every other character in place, and leaves a path without
/// backslashes as it is.
pub proof fn lemma_forward_slashes(path: Seq<char>)
    ensures
        !forward_slashes(path).contains('\\'),
        forward_slashes(path).len() == path.len(),
        forall|i: int| 0 <= i < path.len() && path[i] != '\\' ==> #[trigger] forward_slashes(path)[i] == path[i],
        forall|i: int| 0 <= i < path.len() && path[i] == '\\' ==> #[trigger] forward_slashes(path)[i] == '/',
        !path.contains('\\') ==> forward_slashes(path) == path,
{
    let f = forward_slashes(path);
    assert forall|i: int| 0 <= i < f.len() implies f[i] != '\\' by {
        assert(f[i] == (if path[i] == '\\' { '/' } else { path[i] }));
    }
    if !path.contains('\\') {
        assert forall|i: int| 0 <= i < path.len() implies f[i] == path[i] by {
            assert(path[i] != '\\');
        }
        assert(f =~= path);
    }
}

/// The name under which a path, relative to the archived directory, is
/// stored: none for the directory itself (the empty path), else the path
/// with forward slashes.
pub open spec fn spec_entry_name(relative: Seq<char>) -> Option<Seq<char>> {
    if relative.len() == 0 {
        None
    } else {
        Some(forward_slashes(relative))
    }
}

/// The name under which `relative`, a path relative to the archived
/// directory, is stored in a zip archive; `None` for the directory itself.
pub fn entry_name(relative: &str) -> (r: Option<String>)
    ensures
        match r {
            Some(name) => spec_entry_name(relative@) == Some(name@),
            None => spec_entry_name(relative@) is None,
        },
        r is None <==> relative@.len() == 0,
        r matches Some(name) ==> {
            &&& !name@.contains('\\')
            &&& name@.len() == relative@.len()
            &&& forall|i: int| 0 <= i < relative@.len() && relative@[i] != '\\' ==> #[trigger] name@[i] == relative@[i]
            &&& forall|i: int| 0 <= i < relative@.len() && relative@[i] == '\\' ==> #[trigger] name@[i] == '/'
            &&& !relative@.contains('\\') ==> name@ == relative@
        },
{
    proof {
        lemma_forward_slashes(relative@);
    }
    let cs = chars_of(relative);
    if cs.len() == 0 {
        return None;
    }
    let mut out = String::new();
    let mut i: usize = 0;
    while i < cs.len()
        invariant
            cs@ == relative@,
            i <= cs@.len(),
            out@ == forward_slashes(relative@).take(i as int),
        decreases cs@.len() - i,
    {
        let ghost before = out@;
        let ghost mapped = forward_slashes(relative@);
        if cs[i] == '\\' {
            proof {
                reveal_strlit("/");
            }
            out.append("/");
            assert("/"@ =~= seq!['/']);
        } else {
            let piece = relative.substring_char(i, i + 1);
            assert(piece@ =~= seq![relative@[i as int]]);
            out.append(piece);
        }
        assert(mapped[i as int] == (if relative@[i as int] == '\\' { '/' } else { relative@[i as int] }));
        assert(out@ =~= before.push(mapped[i as int]));
        assert(mapped.take(i + 1) =~= mapped.take(i as int).push(mapped[i as int]));
        i = i + 1;
    }
    assert(forward_slashes(relative@).take(i as int) =~= forward_slashes(relative@));
    Some(out)
}

/// Whether an entry name denotes a directory: it ends with a forward slash.
pub open spec fn spec_is_directory_entry(name: Seq<char>) -> bool {
    name.len() > 0 && name.last() == '/'
}

/// Whether the zip entry `name` is a directory, which is to be created
/// rather than written.
pub fn is_directory_entry(name: &str) -> (r: bool)
    ensures
        r == spec_is_directory_entry(name@),
{
    let cs = chars_of(name);
    let n = cs.len();
    n > 0 && cs[n - 1] == '/'
}

} // verus!
