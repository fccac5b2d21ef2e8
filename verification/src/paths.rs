//! The path remapper: the single rule saying what an absolute or relative
//! path means inside a relocated rootfs, plus the `PATH`-style list mangler
//! built on top of it.

use vstd::prelude::*;
use vstd::string::*;

verus! {

/// `p` with every leading `'/'` removed.
pub open spec fn strip_leading_slashes(p: Seq<char>) -> Seq<char>
    decreases p.len(),
{
    if p.len() > 0 && p[0] == '/' {
        strip_leading_slashes(p.drop_first())
    } else {
        p
    }
}

/// A path interpreted inside a rootfs: the root, one separator, and the path
/// with its leading separators stripped.
pub open spec fn path_in_root_spec(root: Seq<char>, path: Seq<char>) -> Seq<char> {
    root + seq!['/'] + strip_leading_slashes(path)
}

proof fn lemma_strip_leading_slashes_at(p: Seq<char>, i: int)
    requires
        0 <= i <= p.len(),
        forall|j: int| 0 <= j < i ==> p[j] == '/',
        i == p.len() || p[i] != '/',
    ensures
        strip_leading_slashes(p) == p.subrange(i, p.len() as int),
    decreases i,
{
    if i == 0 {
        assert(p.subrange(0, p.len() as int) =~= p);
    } else {
        lemma_strip_leading_slashes_at(p.drop_first(), i - 1);
        assert(p.drop_first().subrange(i - 1, p.drop_first().len() as int) =~= p.subrange(
            i,
            p.len() as int,
        ));
    }
}

/// Law: the path remapper in closed form. An absolute path loses its leading
/// separators and sits under the root; a relative path sits under the root
/// unchanged.
pub proof fn lemma_path_in_root_law(root: Seq<char>, p: Seq<char>)
    ensures
        is_absolute_path(p) ==> path_in_root_spec(root, p) == root + seq!['/']
            + strip_leading_slashes(p),
        !is_absolute_path(p) ==> path_in_root_spec(root, p) == root + seq!['/'] + p,
{
    assert(!is_absolute_path(p) ==> strip_leading_slashes(p) == p);
}

/// Resolves `path` within `root`: an absolute `path` loses its leading
/// separators and is joined under `root`; a relative one is joined unchanged.
/// No existence check and no symlink resolution is performed.
pub fn path_in_root(root: &str, path: &str) -> (r: String)
    ensures
        r@ == path_in_root_spec(root@, path@),
{
    let n = path.unicode_len();
    let mut i: usize = 0;
    while i < n && path.get_char(i) == '/'
        invariant
            i <= n,
            n == path@.len(),
            forall|j: int| 0 <= j < i ==> path@[j] == '/',
        decreases n - i,
    {
        i = i + 1;
    }
    proof {
        lemma_strip_leading_slashes_at(path@, i as int);
        reveal_strlit("/");
    }
    let stripped = path.substring_char(i, n);
    let r = String::from_str(root).concat("/").concat(stripped);
    proof {
        assert(r@ =~= path_in_root_spec(root@, path@));
    }
    r
}

/// Whether a path is absolute: it begins with the separator.
pub open spec fn is_absolute_path(p: Seq<char>) -> bool {
    p.len() > 0 && p[0] == '/'
}

/// Whether `path` is absolute.
pub fn path_is_absolute(path: &str) -> (r: bool)
    ensures
        r == is_absolute_path(path@),
{
    let n = path.unicode_len();
    n > 0 && path.get_char(0) == '/'
}

/// Character-wise string equality.
pub fn str_equal(a: &str, b: &str) -> (r: bool)
    ensures
        r == (a@ == b@),
{
    let na = a.unicode_len();
    let nb = b.unicode_len();
    if na != nb {
        return false;
    }
    let mut i: usize = 0;
    while i < na
        invariant
            i <= na,
            na == a@.len(),
            na == b@.len(),
            forall|j: int| 0 <= j < i ==> a@[j] == b@[j],
        decreases na - i,
    {
        if a.get_char(i) != b.get_char(i) {
            return false;
        }
        i = i + 1;
    }
    proof {
        assert(a@ =~= b@);
    }
    true
}

/// Whether `s` begins with `prefix`.
pub open spec fn starts_with(s: Seq<char>, prefix: Seq<char>) -> bool {
    s.len() >= prefix.len() && s.subrange(0, prefix.len() as int) == prefix
}

/// Character-wise prefix test.
pub fn str_starts_with(s: &str, prefix: &str) -> (r: bool)
    ensures
        r == starts_with(s@, prefix@),
{
    let n = s.unicode_len();
    let np = prefix.unicode_len();
    if n < np {
        return false;
    }
    let mut i: usize = 0;
    while i < np
        invariant
            i <= np,
            np <= n,
            n == s@.len(),
            np == prefix@.len(),
            forall|j: int| 0 <= j < i ==> s@[j] == prefix@[j],
        decreases np - i,
    {
        if s.get_char(i) != prefix.get_char(i) {
            proof {
                assert(s@.subrange(0, np as int)[i as int] != prefix@[i as int]);
            }
            return false;
        }
        i = i + 1;
    }
    proof {
        assert(s@.subrange(0, np as int) =~= prefix@);
    }
    true
}

/// The segments of `s` between occurrences of `sep`, in order. There is
/// always at least one segment; empty segments are kept, so splitting
/// round-trips with joining.
pub open spec fn split_on(s: Seq<char>, sep: char) -> Seq<Seq<char>>
    decreases s.len(),
{
    if s.len() == 0 {
        seq![Seq::<char>::empty()]
    } else if s[0] == sep {
        seq![Seq::<char>::empty()] + split_on(s.drop_first(), sep)
    } else {
        let rest = split_on(s.drop_first(), sep);
        rest.update(0, seq![s[0]] + rest[0])
    }
}

pub proof fn lemma_split_on_len(s: Seq<char>, sep: char)
    ensures
        split_on(s, sep).len() >= 1,
    decreases s.len(),
{
    if s.len() > 0 {
        lemma_split_on_len(s.drop_first(), sep);
    }
}

pub proof fn lemma_split_on_no_sep(s: Seq<char>, sep: char)
    requires
        forall|j: int| 0 <= j < s.len() ==> s[j] != sep,
    ensures
        split_on(s, sep) == seq![s],
    decreases s.len(),
{
    if s.len() == 0 {
        assert(s =~= Seq::<char>::empty());
    } else {
        lemma_split_on_no_sep(s.drop_first(), sep);
        let rest = split_on(s.drop_first(), sep);
        assert(seq![s[0]] + s.drop_first() =~= s);
        assert(rest.update(0, seq![s[0]] + rest[0]) =~= seq![s]);
    }
}

pub proof fn lemma_split_on_first(s: Seq<char>, sep: char, i: int)
    requires
        0 <= i < s.len(),
        s[i] == sep,
        forall|j: int| 0 <= j < i ==> s[j] != sep,
    ensures
        split_on(s, sep) == seq![s.subrange(0, i)] + split_on(
            s.subrange(i + 1, s.len() as int),
            sep,
        ),
    decreases i,
{
    if i == 0 {
        assert(s.subrange(0, 0) =~= Seq::<char>::empty());
        assert(s.subrange(1, s.len() as int) =~= s.drop_first());
        assert(split_on(s, sep) =~= seq![s.subrange(0, 0)] + split_on(
            s.subrange(1, s.len() as int),
            sep,
        ));
    } else {
        lemma_split_on_first(s.drop_first(), sep, i - 1);
        let rest = split_on(s.drop_first(), sep);
        let tail = split_on(s.subrange(i + 1, s.len() as int), sep);
        lemma_split_on_len(s.subrange(i + 1, s.len() as int), sep);
        assert(s.drop_first().subrange(0, i - 1) =~= s.subrange(1, i));
        assert(s.drop_first().subrange(i, s.drop_first().len() as int) =~= s.subrange(
            i + 1,
            s.len() as int,
        ));
        assert(rest == seq![s.subrange(1, i)] + tail);
        assert(seq![s[0]] + s.subrange(1, i) =~= s.subrange(0, i));
        assert(rest.update(0, seq![s[0]] + rest[0]) =~= seq![s.subrange(0, i)] + tail);
    }
}

/// Splits `s` at every occurrence of `sep`, keeping empty segments.
pub fn split_str(s: &str, sep: char) -> (parts: Vec<String>)
    ensures
        parts.deep_view() == split_on(s@, sep),
{
    let n = s.unicode_len();
    let mut parts: Vec<String> = Vec::new();
    let mut start: usize = 0;
    let mut i: usize = 0;
    proof {
        assert(s@.subrange(0, n as int) =~= s@);
        assert(parts.deep_view() =~= Seq::<Seq<char>>::empty());
        assert(parts.deep_view() + split_on(s@, sep) =~= split_on(s@, sep));
    }
    while i < n
        invariant
            start <= i <= n,
            n == s@.len(),
            forall|j: int| start <= j < i ==> s@[j] != sep,
            split_on(s@, sep) == parts.deep_view() + split_on(
                s@.subrange(start as int, n as int),
                sep,
            ),
        decreases n - i,
    {
        if s.get_char(i) == sep {
            let seg = s.substring_char(start, i);
            let ghost old_dv = parts.deep_view();
            parts.push(String::from_str(seg));
            proof {
                let rem = s@.subrange(start as int, n as int);
                lemma_split_on_first(rem, sep, i - start);
                assert(rem.subrange(0, i - start) =~= s@.subrange(start as int, i as int));
                assert(rem.subrange(i - start + 1, rem.len() as int) =~= s@.subrange(
                    i + 1,
                    n as int,
                ));
                assert(parts.deep_view() =~= old_dv + seq![seg@]);
                assert(parts.deep_view() + split_on(s@.subrange(i + 1, n as int), sep) =~= old_dv
                    + split_on(rem, sep));
            }
            start = i + 1;
        }
        i = i + 1;
    }
    let seg = s.substring_char(start, n);
    let ghost old_dv = parts.deep_view();
    parts.push(String::from_str(seg));
    proof {
        lemma_split_on_no_sep(s@.subrange(start as int, n as int), sep);
        assert(parts.deep_view() =~= old_dv + seq![seg@]);
        assert(parts.deep_view() =~= split_on(s@, sep));
    }
    parts
}

/// The parts joined with a single `sep` between consecutive parts.
pub open spec fn join_with(parts: Seq<Seq<char>>, sep: char) -> Seq<char>
    decreases parts.len(),
{
    if parts.len() == 0 {
        Seq::<char>::empty()
    } else if parts.len() == 1 {
        parts[0]
    } else {
        parts[0] + seq![sep] + join_with(parts.drop_first(), sep)
    }
}

pub proof fn lemma_join_with_push(parts: Seq<Seq<char>>, x: Seq<char>, sep: char)
    ensures
        join_with(parts.push(x), sep) == if parts.len() == 0 {
            x
        } else {
            join_with(parts, sep) + seq![sep] + x
        },
    decreases parts.len(),
{
    if parts.len() == 0 {
        assert(parts.push(x) =~= seq![x]);
    } else if parts.len() == 1 {
        assert(parts.push(x)[0] == parts[0]);
        assert(parts.push(x).drop_first() =~= seq![x]);
        assert(join_with(seq![x], sep) == x);
        assert(join_with(parts.push(x), sep) == parts[0] + seq![sep] + x);
    } else {
        lemma_join_with_push(parts.drop_first(), x, sep);
        assert(parts.push(x).drop_first() =~= parts.drop_first().push(x));
        assert(parts[0] + seq![sep] + (join_with(parts.drop_first(), sep) + seq![sep] + x) =~= (
        parts[0] + seq![sep] + join_with(parts.drop_first(), sep)) + seq![sep] + x);
    }
}

/// Joins the parts with `':'` between consecutive parts.
pub fn join_colon(parts: &Vec<String>) -> (r: String)
    ensures
        r@ == join_with(parts.deep_view(), ':'),
{
    let mut r = String::new();
    let mut i: usize = 0;
    while i < parts.len()
        invariant
            i <= parts@.len(),
            r@ == join_with(parts.deep_view().take(i as int), ':'),
        decreases parts@.len() - i,
    {
        if i > 0 {
            r.append(":");
        }
        r.append(parts[i].as_str());
        proof {
            reveal_strlit(":");
            lemma_join_with_push(parts.deep_view().take(i as int), parts.deep_view()[i as int], ':');
            assert(parts.deep_view().take(i as int).push(parts.deep_view()[i as int])
                =~= parts.deep_view().take(i + 1));
        }
        i = i + 1;
    }
    proof {
        assert(parts.deep_view().take(parts@.len() as int) =~= parts.deep_view());
    }
    r
}

/// One segment of a delimited list remapped: a non-empty segment goes through
/// the path remapper, an empty one passes through empty, so that joining
/// reproduces the adjacent delimiters exactly.
pub open spec fn mangle_segment(root: Seq<char>, segment: Seq<char>) -> Seq<char> {
    if segment.len() == 0 {
        segment
    } else {
        path_in_root_spec(root, segment)
    }
}

/// Each part remapped through `mangle_segment`, in order.
pub open spec fn mangle_parts(root: Seq<char>, parts: Seq<Seq<char>>) -> Seq<Seq<char>>
    decreases parts.len(),
{
    if parts.len() == 0 {
        Seq::<Seq<char>>::empty()
    } else {
        seq![mangle_segment(root, parts[0])] + mangle_parts(root, parts.drop_first())
    }
}

/// Law: mangling is order- and count-preserving — the mangled list has
/// exactly as many segments as the input; the segment at each position is the
/// input's segment at that position passed through the path remapper, and an
/// empty segment stays empty.
pub proof fn lemma_mangle_parts_index(root: Seq<char>, parts: Seq<Seq<char>>)
    ensures
        mangle_parts(root, parts).len() == parts.len(),
        forall|k: int|
            0 <= k < parts.len() ==> mangle_parts(root, parts)[k] == mangle_segment(
                root,
                parts[k],
            ),
    decreases parts.len(),
{
    if parts.len() > 0 {
        lemma_mangle_parts_index(root, parts.drop_first());
    }
}

/// A colon-delimited list with every non-empty segment remapped through the
/// path remapper: segment order and count are preserved, and empty segments
/// pass through empty, keeping adjacent delimiters.
pub open spec fn mangle_env_spec(root: Seq<char>, s: Seq<char>) -> Seq<char> {
    join_with(mangle_parts(root, split_on(s, ':')), ':')
}

/// Law: mangling a three-segment list yields exactly the three remapped
/// segments joined with `':'` — segment order and count are preserved, each
/// segment passing through the path remapper on its own.
pub proof fn lemma_mangle_env_three(root: Seq<char>)
    ensures
        mangle_env_spec(root, "a:b:c"@) =~= path_in_root_spec(root, "a"@) + seq![':']
            + path_in_root_spec(root, "b"@) + seq![':'] + path_in_root_spec(root, "c"@),
{
    reveal_strlit("a:b:c");
    reveal_strlit("a");
    reveal_strlit("b");
    reveal_strlit("c");
    let s = "a:b:c"@;
    assert(s.len() == 5);
    assert(s[0] == 'a' && s[1] == ':' && s[2] == 'b' && s[3] == ':' && s[4] == 'c');
    lemma_split_on_first(s, ':', 1);
    let s2 = s.subrange(2, 5);
    assert(s2.len() == 3 && s2[0] == 'b' && s2[1] == ':' && s2[2] == 'c');
    lemma_split_on_first(s2, ':', 1);
    let s3 = s2.subrange(2, 3);
    lemma_split_on_no_sep(s3, ':');
    assert(s.subrange(0, 1) =~= "a"@);
    assert(s2.subrange(0, 1) =~= "b"@);
    assert(s3 =~= "c"@);
    let parts = split_on(s, ':');
    assert(parts =~= seq!["a"@, "b"@, "c"@]);
    lemma_mangle_parts_index(root, parts);
    let mp = mangle_parts(root, parts);
    let pa = path_in_root_spec(root, "a"@);
    let pb = path_in_root_spec(root, "b"@);
    let pc = path_in_root_spec(root, "c"@);
    assert("a"@.len() == 1 && "b"@.len() == 1 && "c"@.len() == 1);
    assert(mp =~= seq![pa, pb, pc]);
    assert(join_with(mp, ':') == mp[0] + seq![':'] + join_with(mp.drop_first(), ':'));
    assert(mp.drop_first() =~= seq![pb, pc]);
    assert(join_with(seq![pb, pc], ':') == pb + seq![':'] + join_with(seq![pb, pc].drop_first(), ':'));
    assert(seq![pb, pc].drop_first() =~= seq![pc]);
    assert(join_with(seq![pc], ':') == pc);
    assert(join_with(mp, ':') =~= pa + seq![':'] + pb + seq![':'] + pc);
}

/// Law: an empty segment passes through the mangler empty, keeping the
/// adjacent delimiters exactly as they stood.
pub proof fn lemma_mangle_env_empty_segment(root: Seq<char>)
    ensures
        mangle_env_spec(root, "a::b"@) =~= path_in_root_spec(root, "a"@) + seq![':', ':']
            + path_in_root_spec(root, "b"@),
{
    reveal_strlit("a::b");
    reveal_strlit("a");
    reveal_strlit("b");
    let s = "a::b"@;
    assert(s.len() == 4);
    assert(s[0] == 'a' && s[1] == ':' && s[2] == ':' && s[3] == 'b');
    lemma_split_on_first(s, ':', 1);
    let s2 = s.subrange(2, 4);
    assert(s2.len() == 2 && s2[0] == ':' && s2[1] == 'b');
    lemma_split_on_first(s2, ':', 0);
    let s3 = s2.subrange(1, 2);
    lemma_split_on_no_sep(s3, ':');
    assert(s.subrange(0, 1) =~= "a"@);
    assert(s2.subrange(0, 0) =~= Seq::<char>::empty());
    assert(s3 =~= "b"@);
    let parts = split_on(s, ':');
    assert(parts =~= seq!["a"@, Seq::<char>::empty(), "b"@]);
    lemma_mangle_parts_index(root, parts);
    let mp = mangle_parts(root, parts);
    let pa = path_in_root_spec(root, "a"@);
    let pb = path_in_root_spec(root, "b"@);
    assert("a"@.len() == 1 && "b"@.len() == 1);
    assert(mp =~= seq![pa, Seq::<char>::empty(), pb]);
    assert(join_with(mp, ':') == mp[0] + seq![':'] + join_with(mp.drop_first(), ':'));
    assert(mp.drop_first() =~= seq![Seq::<char>::empty(), pb]);
    assert(join_with(seq![Seq::<char>::empty(), pb], ':') == Seq::<char>::empty() + seq![':']
        + join_with(seq![Seq::<char>::empty(), pb].drop_first(), ':'));
    assert(seq![Seq::<char>::empty(), pb].drop_first() =~= seq![pb]);
    assert(join_with(seq![pb], ':') == pb);
    assert(join_with(mp, ':') =~= pa + seq![':', ':'] + pb);
}

/// Remaps every non-empty `':'`-separated segment of `s` through
/// `path_in_root`, rejoining with `':'` and preserving segment order and
/// count; empty segments pass through empty, so adjacent delimiters are
/// preserved exactly.
pub fn mangle_env(root: &str, s: &str) -> (r: String)
    ensures
        r@ == mangle_env_spec(root@, s@),
{
    let parts = split_str(s, ':');
    let mut mangled: Vec<String> = Vec::new();
    let mut i: usize = 0;
    while i < parts.len()
        invariant
            i <= parts@.len(),
            parts.deep_view() == split_on(s@, ':'),
            mangled.deep_view().len() == i,
            forall|k: int|
                0 <= k < i ==> mangled.deep_view()[k] == mangle_segment(
                    root@,
                    parts.deep_view()[k],
                ),
        decreases parts@.len() - i,
    {
        let ghost old_dv = mangled.deep_view();
        let segment = parts[i].as_str();
        let next = if segment.unicode_len() == 0 {
            String::new()
        } else {
            path_in_root(root, segment)
        };
        proof {
            assert(parts@[i as int]@ == parts.deep_view()[i as int]);
            if parts.deep_view()[i as int].len() == 0 {
                assert(parts.deep_view()[i as int] =~= Seq::<char>::empty());
            }
            assert(next@ == mangle_segment(root@, parts.deep_view()[i as int]));
        }
        mangled.push(next);
        proof {
            assert(mangled.deep_view() =~= old_dv.push(mangle_segment(
                root@,
                parts.deep_view()[i as int],
            )));
        }
        i = i + 1;
    }
    proof {
        lemma_mangle_parts_index(root@, parts.deep_view());
        assert(mangled.deep_view() =~= mangle_parts(root@, split_on(s@, ':')));
    }
    join_colon(&mangled)
}

} // verus!
