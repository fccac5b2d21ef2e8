//! The library search path resolver: parsing the dynamic-linker configuration
//! tool's verbose listing into the search-path string a binary would see if
//! the rootfs were `/`. Lines without leading whitespace name search
//! directories and end with `':'`; indented lines list files inside the
//! previous directory and are ignored. Each directory is remapped through the
//! path remapper and the results are joined with `':'`.

use vstd::prelude::*;
use vstd::string::*;

use crate::errors::InitError;
use crate::paths::{
    join_colon, join_with, lemma_split_on_len, path_in_root, path_in_root_spec, split_on,
    split_str,
};
use crate::tool::ToolOutput;

verus! {

/// ASCII whitespace, as the delegated tools emit it.
pub open spec fn is_space_char(c: char) -> bool {
    c == ' ' || c == '\t' || c == '\r' || c == '\n'
}

/// One `'\r'` left at the end of a line by a `"\r\n"` line break is dropped.
pub open spec fn chomp_cr(line: Seq<char>) -> Seq<char> {
    if line.len() > 0 && line.last() == '\r' {
        line.drop_last()
    } else {
        line
    }
}

pub open spec fn chomp_all(parts: Seq<Seq<char>>) -> Seq<Seq<char>>
    decreases parts.len(),
{
    if parts.len() == 0 {
        Seq::<Seq<char>>::empty()
    } else {
        seq![chomp_cr(parts[0])] + chomp_all(parts.drop_first())
    }
}

proof fn lemma_chomp_all_index(parts: Seq<Seq<char>>)
    ensures
        chomp_all(parts).len() == parts.len(),
        forall|k: int| 0 <= k < parts.len() ==> chomp_all(parts)[k] == chomp_cr(parts[k]),
    decreases parts.len(),
{
    if parts.len() > 0 {
        lemma_chomp_all_index(parts.drop_first());
    }
}

/// The lines of `s`: the segments between `'\n'` breaks, a `"\r\n"` break
/// counting as one; a trailing break yields no final empty line.
pub open spec fn lines_spec(s: Seq<char>) -> Seq<Seq<char>> {
    let parts = split_on(s, '\n');
    let body = chomp_all(parts.drop_last());
    if parts.last().len() == 0 {
        body
    } else {
        body + seq![parts.last()]
    }
}

fn chomp_cr_line(line: &str) -> (r: String)
    ensures
        r@ == chomp_cr(line@),
{
    let n = line.unicode_len();
    if n > 0 && line.get_char(n - 1) == '\r' {
        let r = String::from_str(line.substring_char(0, n - 1));
        proof {
            assert(line@.subrange(0, n - 1) =~= line@.drop_last());
        }
        r
    } else {
        String::from_str(line)
    }
}

/// Splits text into lines.
pub fn split_lines(s: &str) -> (lines: Vec<String>)
    ensures
        lines.deep_view() == lines_spec(s@),
{
    let parts = split_str(s, '\n');
    proof {
        lemma_split_on_len(s@, '\n');
    }
    let n = parts.len();
    let mut lines: Vec<String> = Vec::new();
    let mut i: usize = 0;
    while i < n - 1
        invariant
            n == parts@.len(),
            n >= 1,
            i <= n - 1,
            parts.deep_view() == split_on(s@, '\n'),
            lines.deep_view().len() == i,
            forall|k: int|
                0 <= k < i ==> lines.deep_view()[k] == chomp_cr(parts.deep_view()[k]),
        decreases n - 1 - i,
    {
        let ghost old_dv = lines.deep_view();
        let next = chomp_cr_line(parts[i].as_str());
        proof {
            assert(parts@[i as int]@ == parts.deep_view()[i as int]);
        }
        lines.push(next);
        proof {
            assert(lines.deep_view() =~= old_dv.push(chomp_cr(parts.deep_view()[i as int])));
        }
        i = i + 1;
    }
    proof {
        lemma_chomp_all_index(parts.deep_view().drop_last());
        assert(forall|k: int|
            0 <= k < n - 1 ==> parts.deep_view().drop_last()[k] == parts.deep_view()[k]);
        assert(lines.deep_view() =~= chomp_all(parts.deep_view().drop_last()));
    }
    if parts[n - 1].as_str().unicode_len() > 0 {
        let ghost old_dv = lines.deep_view();
        let last = String::from_str(parts[n - 1].as_str());
        proof {
            assert(parts@[n - 1]@ == parts.deep_view()[n - 1]);
            assert(parts.deep_view()[n - 1] == parts.deep_view().last());
        }
        lines.push(last);
        proof {
            assert(lines.deep_view() =~= old_dv + seq![parts.deep_view().last()]);
        }
    }
    proof {
        assert(parts.deep_view().last().len() == 0 ==> lines.deep_view() =~= lines_spec(s@));
        assert(parts.deep_view().last().len() > 0 ==> lines.deep_view() =~= lines_spec(s@));
    }
    lines
}

/// `line` with every trailing `':'` removed: directory lines of the verbose
/// listing end with one.
pub open spec fn strip_trailing_colons(line: Seq<char>) -> Seq<char>
    decreases line.len(),
{
    if line.len() > 0 && line.last() == ':' {
        strip_trailing_colons(line.drop_last())
    } else {
        line
    }
}

proof fn lemma_strip_trailing_colons_at(line: Seq<char>, j: int)
    requires
        0 <= j <= line.len(),
        forall|k: int| j <= k < line.len() ==> line[k] == ':',
        j == 0 || line[j - 1] != ':',
    ensures
        strip_trailing_colons(line) == line.subrange(0, j),
    decreases line.len() - j,
{
    if j == line.len() {
        assert(line.subrange(0, j) =~= line);
    } else {
        lemma_strip_trailing_colons_at(line.drop_last(), j);
        assert(line.drop_last().subrange(0, j) =~= line.subrange(0, j));
    }
}

fn strip_colons(line: &str) -> (r: String)
    ensures
        r@ == strip_trailing_colons(line@),
{
    let n = line.unicode_len();
    let mut j = n;
    while j > 0 && line.get_char(j - 1) == ':'
        invariant
            j <= n,
            n == line@.len(),
            forall|k: int| j <= k < n ==> line@[k] == ':',
        decreases j,
    {
        j = j - 1;
    }
    proof {
        lemma_strip_trailing_colons_at(line@, j as int);
    }
    String::from_str(line.substring_char(0, j))
}

/// A line of the verbose listing that names a search directory: file entries
/// are indented, directory lines are not.
pub open spec fn is_dir_line(line: Seq<char>) -> bool {
    !(line.len() > 0 && is_space_char(line[0]))
}

/// The search directories drawn from the listing's lines, each stripped of
/// its trailing `':'` and remapped into the rootfs, in listing order.
pub open spec fn ldpath_entries(root: Seq<char>, lines: Seq<Seq<char>>) -> Seq<Seq<char>>
    decreases lines.len(),
{
    if lines.len() == 0 {
        Seq::<Seq<char>>::empty()
    } else {
        let rest = ldpath_entries(root, lines.drop_first());
        if is_dir_line(lines[0]) {
            seq![path_in_root_spec(root, strip_trailing_colons(lines[0]))] + rest
        } else {
            rest
        }
    }
}

pub proof fn lemma_ldpath_entries_push(root: Seq<char>, lines: Seq<Seq<char>>, x: Seq<char>)
    ensures
        ldpath_entries(root, lines.push(x)) == ldpath_entries(root, lines) + (if is_dir_line(x) {
            seq![path_in_root_spec(root, strip_trailing_colons(x))]
        } else {
            Seq::<Seq<char>>::empty()
        }),
    decreases lines.len(),
{
    let extra = if is_dir_line(x) {
        seq![path_in_root_spec(root, strip_trailing_colons(x))]
    } else {
        Seq::<Seq<char>>::empty()
    };
    if lines.len() == 0 {
        assert(lines.push(x)[0] == x);
        assert(lines.push(x).drop_first() =~= Seq::<Seq<char>>::empty());
        assert(ldpath_entries(root, Seq::<Seq<char>>::empty()) == Seq::<Seq<char>>::empty());
        assert(ldpath_entries(root, lines.push(x)) =~= extra);
        assert(ldpath_entries(root, lines.push(x)) =~= ldpath_entries(root, lines) + extra);
    } else {
        lemma_ldpath_entries_push(root, lines.drop_first(), x);
        assert(lines.push(x)[0] == lines[0]);
        assert(lines.push(x).drop_first() =~= lines.drop_first().push(x));
        if is_dir_line(lines[0]) {
            let head = seq![path_in_root_spec(root, strip_trailing_colons(lines[0]))];
            assert(head + (ldpath_entries(root, lines.drop_first()) + extra) =~= (head
                + ldpath_entries(root, lines.drop_first())) + extra);
        }
    }
}

/// §4.3 of the pipeline as a function of the tool's verbose output text.
pub open spec fn ldpath_spec(root: Seq<char>, out: Seq<char>) -> Seq<char> {
    join_with(ldpath_entries(root, lines_spec(out)), ':')
}

/// Parses the verbose listing and yields the remapped search-path string.
pub fn parse_ldconfig_output(root: &str, out: &str) -> (r: String)
    ensures
        r@ == ldpath_spec(root@, out@),
{
    let lines = split_lines(out);
    let mut entries: Vec<String> = Vec::new();
    let mut i: usize = 0;
    proof {
        assert(lines.deep_view().take(0) =~= Seq::<Seq<char>>::empty());
    }
    while i < lines.len()
        invariant
            i <= lines@.len(),
            lines.deep_view() == lines_spec(out@),
            entries.deep_view() == ldpath_entries(root@, lines.deep_view().take(i as int)),
        decreases lines@.len() - i,
    {
        let line = &lines[i];
        proof {
            assert(lines@[i as int]@ == lines.deep_view()[i as int]);
        }
        let n = line.as_str().unicode_len();
        let indented = n > 0 && {
            let c = line.as_str().get_char(0);
            c == ' ' || c == '\t' || c == '\r' || c == '\n'
        };
        let ghost old_dv = entries.deep_view();
        if !indented {
            let stripped = strip_colons(line.as_str());
            let entry = path_in_root(root, stripped.as_str());
            entries.push(entry);
            proof {
                assert(entries.deep_view() =~= old_dv + seq![
                    path_in_root_spec(
                        root@,
                        strip_trailing_colons(lines.deep_view()[i as int]),
                    ),
                ]);
            }
        }
        proof {
            lemma_ldpath_entries_push(
                root@,
                lines.deep_view().take(i as int),
                lines.deep_view()[i as int],
            );
            assert(lines.deep_view().take(i as int).push(lines.deep_view()[i as int])
                =~= lines.deep_view().take(i + 1));
            assert(!indented == is_dir_line(lines.deep_view()[i as int]));
            if indented {
                assert(entries.deep_view() =~= old_dv + Seq::<Seq<char>>::empty());
            }
        }
        i = i + 1;
    }
    proof {
        assert(lines.deep_view().take(lines@.len() as int) =~= lines.deep_view());
    }
    join_colon(&entries)
}

/// Maps the dynamic-linker configuration tool's outcome to the search-path
/// string. A spawn failure (`Err`, with the OS error's description) or a
/// non-zero exit is a fatal `ExternalToolError` whose diagnostic names the
/// tool and carries the OS error, or the exit status and the tool's standard
/// error; a successful run has its verbose listing parsed and remapped.
pub fn ldpath_from_tool(root: &str, tool: &str, output: Result<ToolOutput, String>) -> (r: Result<
    String,
    InitError,
>)
    ensures
        (match r {
            Ok(s) => output matches Ok(o) && o.success && s@ == ldpath_spec(root@, o.stdout@),
            Err(e) => (e matches InitError::ExternalToolError { detail } && (match output {
                Err(spawn_error) => detail@ == "could not execute "@ + tool@ + ": "@
                    + spawn_error@,
                Ok(o) => !o.success && detail@ == "expected "@ + tool@ + " success ("@ + o.status@
                    + "): "@ + o.stderr@,
            })),
        }),
{
    match output {
        Err(spawn_error) => Err(
            InitError::ExternalToolError {
                detail: String::from_str("could not execute ").concat(tool).concat(": ").concat(
                    spawn_error.as_str(),
                ),
            },
        ),
        Ok(o) => {
            if o.success {
                Ok(parse_ldconfig_output(root, o.stdout.as_str()))
            } else {
                Err(
                    InitError::ExternalToolError {
                        detail: String::from_str("expected ").concat(tool).concat(
                            " success (",
                        ).concat(o.status.as_str()).concat("): ").concat(o.stderr.as_str()),
                    },
                )
            }
        },
    }
}

} // verus!
