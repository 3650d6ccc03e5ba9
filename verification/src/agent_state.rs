//! Where an agent keeps its identity.

use std::path::Path;
use vstd::prelude::*;

verus! {

/// The file with the identity.
pub const STATE_FILE: &'static str = "agent_state.json";

/// Whether a text names a file in a directory: it is not empty, and neither a directory itself nor
/// a path of several parts on any system.
pub open spec fn is_file_name(name: Seq<char>) -> bool {
    &&& name.len() > 0
    &&& name != "."@
    &&& name != ".."@
    &&& forall|i: int|
        0 <= i < name.len() ==> (#[trigger] name[i]) != '/' && name[i] != '\\' && name[i] != ':'
}

/// A file in a directory, on Unix. A directory that is given with its separator, and the empty
/// path, get none.
pub open spec fn unix_path(dir: Seq<char>, name: Seq<char>) -> Seq<char> {
    if dir.len() == 0 || dir.last() == '/' {
        dir + name
    } else {
        dir.push('/') + name
    }
}

/// Whether a Windows path is a drive alone, such as `C:`.
pub open spec fn is_drive(dir: Seq<char>) -> bool {
    dir.len() == 2 && dir[1] == ':' && ('a' <= dir[0] <= 'z' || 'A' <= dir[0] <= 'Z')
}

/// Whether a Windows path is verbatim: it starts with `\\?\`.
pub open spec fn is_verbatim(dir: Seq<char>) -> bool {
    dir.len() >= 4 && dir[0] == '\\' && dir[1] == '\\' && dir[2] == '?' && dir[3] == '\\'
}

/// A file in a directory, on Windows, where the path is not verbatim. A directory that is given
/// with its separator, the empty path and a drive alone get none.
pub open spec fn windows_path(dir: Seq<char>, name: Seq<char>) -> Seq<char> {
    if dir.len() == 0 || dir.last() == '/' || dir.last() == '\\' || is_drive(dir) {
        dir + name
    } else {
        dir.push('\\') + name
    }
}

/// Whether a path is a file in a directory by the rules of some system.
pub open spec fn is_path_of(path: Seq<char>, dir: Seq<char>, name: Seq<char>) -> bool {
    ||| path == unix_path(dir, name)
    ||| !is_verbatim(dir) && path == windows_path(dir, name)
    ||| is_verbatim(dir) && name.is_suffix_of(path)
}

/// `std::path::Path::join` on a directory and the name of a file in it: the path of the file, by
/// the rules of the system that it runs on. Of a verbatim Windows path, which is normalized, only
/// its end is said.
#[verifier::external_body]
fn join_path(dir: &str, name: &str) -> (path: String)
    requires
        is_file_name(name@),
    ensures
        is_path_of(path@, dir@, name@),
{
    Path::new(dir).join(name).to_string_lossy().into_owned()
}

/// The file with the identity, in a directory, by the rules of the system that it runs on.
pub fn state_path(state_dir: &str) -> (path: String)
    ensures
        is_path_of(path@, state_dir@, STATE_FILE@),
{
    proof {
        reveal_strlit("agent_state.json");
        reveal_strlit(".");
        reveal_strlit("..");
    }
    join_path(state_dir, STATE_FILE)
}

} // verus!
