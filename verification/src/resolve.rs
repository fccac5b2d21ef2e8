//! The entrypoint resolver: finding the on-disk location of the executable to
//! run, given the rootfs root, the mangled search path, and the command named
//! by the manifest.

use vstd::prelude::*;
use vstd::string::*;

use crate::paths::{
    is_absolute_path, path_in_root, path_in_root_spec, path_is_absolute, split_on, split_str,
};

verus! {

/// A search-path directory joined with a command name; an empty directory
/// (an empty search-path segment) contributes the bare command, to be looked
/// up relative to the working directory.
pub open spec fn dir_join_spec(dir: Seq<char>, cmd: Seq<char>) -> Seq<char> {
    if dir.len() == 0 {
        cmd
    } else {
        dir + seq!['/'] + cmd
    }
}

/// What a resolved entrypoint is: an absolute command is remapped through the
/// path remapper, ignoring the search path and checking no existence; a bare
/// name resolves to one of the search path's directories joined with it.
pub open spec fn entrypoint_resolved(
    root: Seq<char>,
    mangled_path: Seq<char>,
    cmd: Seq<char>,
    entry: Seq<char>,
) -> bool {
    if is_absolute_path(cmd) {
        entry == path_in_root_spec(root, cmd)
    } else {
        exists|k: int|
            0 <= k < split_on(mangled_path, ':').len() && entry == dir_join_spec(
                #[trigger] split_on(mangled_path, ':')[k],
                cmd,
            )
    }
}

/// Relies on std::path::Path::exists: whether the path names an existing
/// filesystem entity (false when the metadata query fails). The answer
/// depends on the disk, so nothing more is stated of it.
#[verifier::external_body]
fn file_exists(p: &str) -> bool {
    std::path::Path::new(p).exists()
}

/// Resolves `cmd`: an absolute command is remapped directly and always
/// resolves; a bare name is joined with each directory of the mangled search
/// path in order, the first candidate present on disk winning, and `None`
/// means no candidate existed.
pub fn resolve_in_root_with_path(root: &str, path: &str, cmd: &str) -> (r: Option<String>)
    ensures
        (match r {
            Some(t) => entrypoint_resolved(root@, path@, cmd@, t@),
            None => !is_absolute_path(cmd@),
        }),
{
    if path_is_absolute(cmd) {
        return Some(path_in_root(root, cmd));
    }
    let parts = split_str(path, ':');
    let mut k: usize = 0;
    while k < parts.len()
        invariant
            k <= parts@.len(),
            !is_absolute_path(cmd@),
            parts.deep_view() == split_on(path@, ':'),
        decreases parts@.len() - k,
    {
        let dir = parts[k].as_str();
        let cand = if dir.unicode_len() == 0 {
            String::from_str(cmd)
        } else {
            String::from_str(dir).concat("/").concat(cmd)
        };
        proof {
            reveal_strlit("/");
            assert(parts@[k as int]@ == parts.deep_view()[k as int]);
            assert(cand@ =~= dir_join_spec(parts.deep_view()[k as int], cmd@));
        }
        if file_exists(cand.as_str()) {
            proof {
                assert(0 <= (k as int) && (k as int) < split_on(path@, ':').len() && cand@
                    == dir_join_spec(
                    split_on(path@, ':')[k as int],
                    cmd@,
                ));
                assert(entrypoint_resolved(root@, path@, cmd@, cand@));
            }
            return Some(cand);
        }
        k = k + 1;
    }
    None
}

} // verus!
