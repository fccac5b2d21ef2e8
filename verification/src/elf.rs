//! The linkage patcher's per-file decisions: whether the dependency
//! inspector's report makes a file a patch candidate, which interpreter a
//! candidate must be given, and which linkage-edit failures are fatal.
//! Walking the tree and spawning the tools is the caller's concern; every
//! decision here is a function of one file's tool outcomes alone, so the
//! result does not depend on visitation order.

use vstd::prelude::*;
use vstd::string::*;

use crate::errors::InitError;
use crate::ldpath::is_space_char;
use crate::paths::{path_in_root, path_in_root_spec, str_equal};
use crate::tool::ToolOutput;

verus! {

/// `s` with leading ASCII whitespace removed.
pub open spec fn strip_leading_spaces(s: Seq<char>) -> Seq<char>
    decreases s.len(),
{
    if s.len() > 0 && is_space_char(s[0]) {
        strip_leading_spaces(s.drop_first())
    } else {
        s
    }
}

/// `s` with trailing ASCII whitespace removed.
pub open spec fn strip_trailing_spaces(s: Seq<char>) -> Seq<char>
    decreases s.len(),
{
    if s.len() > 0 && is_space_char(s.last()) {
        strip_trailing_spaces(s.drop_last())
    } else {
        s
    }
}

/// `s` with ASCII whitespace removed at both ends.
pub open spec fn trim_spaces(s: Seq<char>) -> Seq<char> {
    strip_trailing_spaces(strip_leading_spaces(s))
}

proof fn lemma_strip_leading_spaces_at(s: Seq<char>, i: int)
    requires
        0 <= i <= s.len(),
        forall|j: int| 0 <= j < i ==> is_space_char(s[j]),
        i == s.len() || !is_space_char(s[i]),
    ensures
        strip_leading_spaces(s) == s.subrange(i, s.len() as int),
    decreases i,
{
    if i == 0 {
        assert(s.subrange(0, s.len() as int) =~= s);
    } else {
        lemma_strip_leading_spaces_at(s.drop_first(), i - 1);
        assert(s.drop_first().subrange(i - 1, s.drop_first().len() as int) =~= s.subrange(
            i,
            s.len() as int,
        ));
    }
}

proof fn lemma_strip_trailing_spaces_at(s: Seq<char>, j: int)
    requires
        0 <= j <= s.len(),
        forall|k: int| j <= k < s.len() ==> is_space_char(s[k]),
        j == 0 || !is_space_char(s[j - 1]),
    ensures
        strip_trailing_spaces(s) == s.subrange(0, j),
    decreases s.len() - j,
{
    if j == s.len() {
        assert(s.subrange(0, j) =~= s);
    } else {
        lemma_strip_trailing_spaces_at(s.drop_last(), j);
        assert(s.drop_last().subrange(0, j) =~= s.subrange(0, j));
    }
}

fn is_space(c: char) -> (r: bool)
    ensures
        r == is_space_char(c),
{
    c == ' ' || c == '\t' || c == '\r' || c == '\n'
}

/// Trims ASCII whitespace from both ends.
pub fn str_trim(s: &str) -> (r: String)
    ensures
        r@ == trim_spaces(s@),
{
    let n = s.unicode_len();
    let mut i: usize = 0;
    while i < n && is_space(s.get_char(i))
        invariant
            i <= n,
            n == s@.len(),
            forall|j: int| 0 <= j < i ==> is_space_char(s@[j]),
        decreases n - i,
    {
        i = i + 1;
    }
    let mut j: usize = n;
    while j > i && is_space(s.get_char(j - 1))
        invariant
            i <= j <= n,
            n == s@.len(),
            forall|k: int| j <= k < n ==> is_space_char(s@[k]),
        decreases j,
    {
        j = j - 1;
    }
    proof {
        lemma_strip_leading_spaces_at(s@, i as int);
        let mid = s@.subrange(i as int, n as int);
        lemma_strip_trailing_spaces_at(mid, j - i);
        assert(mid.subrange(0, j - i) =~= s@.subrange(i as int, j as int));
    }
    String::from_str(s.substring_char(i, j))
}

/// An inspection report (trimmed) that marks a file as not dynamically
/// linked.
pub open spec fn static_marker(t: Seq<char>) -> bool {
    t == "not a dynamic executable"@ || t == "statically linked"@
}

/// Whether a regular file is a candidate for linkage patching, given the
/// dependency-inspection tool's outcome on it: a spawn failure, a non-zero
/// exit, and a static-linking report all exclude it (such files are left
/// untouched, never an error).
pub open spec fn is_patch_candidate(out: Option<ToolOutput>) -> bool {
    match out {
        None => false,
        Some(o) => o.success && !static_marker(trim_spaces(o.stdout@)),
    }
}

/// Classifies one regular file from the dependency inspector's outcome.
pub fn elf_candidate(output: &Option<ToolOutput>) -> (r: bool)
    ensures
        r == is_patch_candidate(*output),
{
    match output {
        None => false,
        Some(o) => {
            if !o.success {
                false
            } else {
                let t = str_trim(o.stdout.as_str());
                let m1 = str_equal(t.as_str(), "not a dynamic executable");
                let m2 = str_equal(t.as_str(), "statically linked");
                !(m1 || m2)
            }
        },
    }
}

/// One trailing line break dropped: the linkage tool ends its interpreter
/// answer with one.
pub open spec fn chomp_newline(s: Seq<char>) -> Seq<char> {
    if s.len() > 0 && s.last() == '\n' {
        s.drop_last()
    } else {
        s
    }
}

/// Whether the interpreter query succeeded.
pub open spec fn query_succeeded(q: Option<ToolOutput>) -> bool {
    match q {
        Some(o) => o.success,
        None => false,
    }
}

/// The interpreter path a successful query reported.
pub open spec fn queried_interp(q: Option<ToolOutput>) -> Seq<char> {
    match q {
        Some(o) => chomp_newline(o.stdout@),
        None => Seq::<char>::empty(),
    }
}

/// The interpreter decision for one candidate: a failed query skips
/// interpreter patching — not fatal, the search path is still set — while a
/// successful one yields the reported interpreter remapped into the rootfs.
pub fn interp_new_value(root: &str, query: &Option<ToolOutput>) -> (r: Option<String>)
    ensures
        (match r {
            Some(t) => query_succeeded(*query) && t@ == path_in_root_spec(
                root@,
                queried_interp(*query),
            ),
            None => !query_succeeded(*query),
        }),
{
    match query {
        None => None,
        Some(o) => {
            if !o.success {
                None
            } else {
                let s = o.stdout.as_str();
                let n = s.unicode_len();
                let chomped = if n > 0 && s.get_char(n - 1) == '\n' {
                    let c = s.substring_char(0, n - 1);
                    proof {
                        assert(c@ =~= chomp_newline(o.stdout@));
                    }
                    c
                } else {
                    let c = s.substring_char(0, n);
                    proof {
                        assert(c@ =~= chomp_newline(o.stdout@));
                    }
                    c
                };
                Some(path_in_root(root, chomped))
            }
        },
    }
}

/// The outcome of one linkage-edit invocation (set-interpreter or
/// set-search-path): a spawn failure (`Err`, with the OS error's description)
/// or a non-zero exit is fatal — every dynamic binary must get a correct
/// search path or it cannot locate its libraries in the relocated tree. The
/// diagnostic names the file worked on (`what`) and carries the OS error.
pub fn linkage_edit_outcome(outcome: Result<bool, String>, what: &str) -> (r: Result<
    (),
    InitError,
>)
    ensures
        (match r {
            Ok(u) => outcome == Ok::<bool, String>(true),
            Err(e) => (e matches InitError::ExternalToolError { detail } && (match outcome {
                Ok(success) => !success && detail@ == "linkage editor failed on "@ + what@,
                Err(spawn_error) => detail@ == "could not execute the linkage editor on "@ + what@
                    + ": "@ + spawn_error@,
            })),
        }),
{
    match outcome {
        Ok(true) => Ok(()),
        Ok(false) => Err(
            InitError::ExternalToolError {
                detail: String::from_str("linkage editor failed on ").concat(what),
            },
        ),
        Err(spawn_error) => Err(
            InitError::ExternalToolError {
                detail: String::from_str("could not execute the linkage editor on ").concat(
                    what,
                ).concat(": ").concat(spawn_error.as_str()),
            },
        ),
    }
}

} // verus!
