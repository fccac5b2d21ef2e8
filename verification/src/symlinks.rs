//! The symlink rewriter's per-entry decision: which on-disk target a symlink
//! must be given so it resolves inside the relocated rootfs. Walking the tree
//! and replacing links is the caller's concern; the decision is
//! order-independent, each link's answer depends on its own original target
//! alone, and a second pass over a rewritten tree changes nothing.

use vstd::prelude::*;
use vstd::string::*;

use crate::paths::{
    is_absolute_path, path_in_root, path_in_root_spec, starts_with, str_starts_with,
};

verus! {

/// Whether a symlink with this on-disk target must be rewritten: only
/// absolute targets are re-anchored, and one already under the root is left
/// alone so that a second pass is a no-op.
pub open spec fn needs_rewrite(root: Seq<char>, target: Seq<char>) -> bool {
    is_absolute_path(target) && !starts_with(target, root + seq!['/'])
}

/// The decision for one symlink: `Some` carries the replacement target when
/// the link must be re-anchored through the path remapper; `None` leaves the
/// link unchanged (relative targets, and absolute targets already under the
/// root).
pub fn symlink_new_target(root: &str, target: &str) -> (r: Option<String>)
    ensures
        (match r {
            Some(t) => needs_rewrite(root@, target@) && t@ == path_in_root_spec(root@, target@),
            None => !needs_rewrite(root@, target@),
        }),
{
    if !crate::paths::path_is_absolute(target) {
        return None;
    }
    let prefix = String::from_str(root).concat("/");
    proof {
        reveal_strlit("/");
        assert(prefix@ =~= root@ + seq!['/']);
    }
    if str_starts_with(target, prefix.as_str()) {
        return None;
    }
    Some(path_in_root(root, target))
}

/// Law: one rewrite is enough. Whatever the path remapper wrote for a link is
/// never itself a target that needs rewriting, so a second pass of the
/// symlink rewriter leaves a rewritten tree unchanged.
pub proof fn lemma_symlink_rewrite_idempotent(root: Seq<char>, target: Seq<char>)
    ensures
        !needs_rewrite(root, path_in_root_spec(root, target)),
{
    let written = path_in_root_spec(root, target);
    assert(written.subrange(0, (root + seq!['/']).len() as int) =~= root + seq!['/']);
}

} // verus!
