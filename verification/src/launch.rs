//! The process launcher's plan: the exact argument vector, working directory,
//! environment and PID record that the final process replacement uses. The
//! caller performs the replacement; everything it hands the OS is computed
//! and pinned down here.

use vstd::prelude::*;
use vstd::string::*;

use crate::errors::InitError;
use crate::manifest::{first_env_index, has_env, App, NameValue};
use crate::paths::{is_absolute_path, mangle_env, mangle_env_spec, str_equal};
use crate::resolve::{entrypoint_resolved, resolve_in_root_with_path};

verus! {

/// The fixed fallback search path used when the app declares no `PATH`.
pub open spec fn default_search_path_spec() -> Seq<char> {
    "/sbin:/usr/sbin:/bin:/usr/bin:/usr/local/sbin:/usr/local/bin"@
}

pub fn default_search_path() -> (r: &'static str)
    ensures
        r@ == default_search_path_spec(),
{
    "/sbin:/usr/sbin:/bin:/usr/bin:/usr/local/sbin:/usr/local/bin"
}

/// The command of an exec list: its first element, or `sh` when the list is
/// empty.
pub open spec fn command_of(exec_line: Seq<String>) -> Seq<char> {
    if exec_line.len() == 0 {
        "sh"@
    } else {
        exec_line[0]@
    }
}

/// The `PATH` value the app runs under, before mangling: the first declared
/// `PATH`, or the fixed fallback.
pub open spec fn declared_path_value(env: Seq<NameValue>) -> Seq<char> {
    if has_env(env, "PATH"@) {
        env[first_env_index(env, "PATH"@)].value@
    } else {
        default_search_path_spec()
    }
}

/// Picks the command to run.
pub fn exec_command(exec_line: &Vec<String>) -> (r: String)
    ensures
        r@ == command_of(exec_line@),
{
    if exec_line.len() == 0 {
        String::from_str("sh")
    } else {
        exec_line[0].clone()
    }
}

/// The argument vector: everything of the exec list after the command itself.
pub fn exec_arguments(exec_line: &Vec<String>) -> (r: Vec<String>)
    ensures
        exec_line@.len() == 0 ==> r@ == Seq::<String>::empty(),
        exec_line@.len() > 0 ==> r@ == exec_line@.subrange(1, exec_line@.len() as int),
{
    let mut r: Vec<String> = Vec::new();
    if exec_line.len() == 0 {
        proof {
            assert(r@ =~= Seq::<String>::empty());
        }
        return r;
    }
    let mut i: usize = 1;
    while i < exec_line.len()
        invariant
            1 <= i <= exec_line@.len(),
            r@ == exec_line@.subrange(1, i as int),
        decreases exec_line@.len() - i,
    {
        r.push(exec_line[i].clone());
        proof {
            assert(r@ =~= exec_line@.subrange(1, i + 1));
        }
        i = i + 1;
    }
    r
}

/// Names whose values are colon-delimited search paths: their values are
/// mangled into the rootfs rather than passed verbatim.
pub open spec fn is_search_path_name(name: Seq<char>) -> bool {
    name == "PATH"@ || name == "LD_LIBRARY_PATH"@
}

/// What one declared pair becomes in the assembled environment: a search-path
/// value is mangled into the rootfs, any other is passed verbatim.
pub open spec fn mangled_pair(root: Seq<char>, declared: NameValue, out: NameValue) -> bool {
    &&& out.name@ == declared.name@
    &&& out.value@ == (if is_search_path_name(declared.name@) {
        mangle_env_spec(root, declared.value@)
    } else {
        declared.value@
    })
}

/// How many entries stand before the declared pairs in the assembled
/// environment: one for the inherited `TERM` when present.
pub open spec fn env_base(term: Option<String>) -> int {
    if term is Some {
        1
    } else {
        0
    }
}

/// What one assembled environment looks like: the inherited `TERM` first when
/// present, then every declared pair in order — a search-path value mangled,
/// any other verbatim — and a mangled fallback `PATH` appended when the app
/// declares none.
pub open spec fn env_assembled(
    root: Seq<char>,
    env: Seq<NameValue>,
    term: Option<String>,
    out: Seq<NameValue>,
) -> bool {
    let base = env_base(term);
    let extra: int = if has_env(env, "PATH"@) {
        0
    } else {
        1
    };
    &&& out.len() == base + env.len() + extra
    &&& (term matches Some(t) ==> out[0].name@ == "TERM"@ && out[0].value@ == t@)
    &&& (forall|j: int|
        base <= j < base + env.len() ==> mangled_pair(root, env[j - base], #[trigger] out[j]))
    &&& (!has_env(env, "PATH"@) ==> out[base + env.len()].name@ == "PATH"@ && out[base
        + env.len()].value@ == mangle_env_spec(root, default_search_path_spec()))
}

/// Assembles the environment for the process replacement, clearing everything
/// inherited except `TERM`.
pub fn build_env(root: &str, env: &Vec<NameValue>, term: &Option<String>) -> (out: Vec<NameValue>)
    ensures
        env_assembled(root@, env@, *term, out@),
{
    let mut out: Vec<NameValue> = Vec::new();
    match term {
        Some(t) => {
            out.push(NameValue { name: String::from_str("TERM"), value: t.clone() });
        },
        None => {},
    }
    let ghost base: int = out@.len() as int;
    let mut i: usize = 0;
    while i < env.len()
        invariant
            i <= env@.len(),
            base == env_base(*term),
            out@.len() == base + i,
            (term matches Some(t) ==> out@[0].name@ == "TERM"@ && out@[0].value@ == t@),
            forall|j: int| base <= j < base + i ==> mangled_pair(root@, env@[j - base], #[trigger] out@[j]),
        decreases env@.len() - i,
    {
        let nv = &env[i];
        let mangle = str_equal(nv.name.as_str(), "PATH") || str_equal(
            nv.name.as_str(),
            "LD_LIBRARY_PATH",
        );
        let value = if mangle {
            mangle_env(root, nv.value.as_str())
        } else {
            nv.value.clone()
        };
        out.push(NameValue { name: nv.name.clone(), value });
        i = i + 1;
    }
    let declared_path = crate::manifest::find_env_value(env, "PATH");
    if declared_path.is_none() {
        out.push(
            NameValue {
                name: String::from_str("PATH"),
                value: mangle_env(root, default_search_path()),
            },
        );
    }
    out
}

/// Maps a decimal digit value to its character.
pub open spec fn decimal_digit(d: nat) -> char {
    if d == 0 {
        '0'
    } else if d == 1 {
        '1'
    } else if d == 2 {
        '2'
    } else if d == 3 {
        '3'
    } else if d == 4 {
        '4'
    } else if d == 5 {
        '5'
    } else if d == 6 {
        '6'
    } else if d == 7 {
        '7'
    } else if d == 8 {
        '8'
    } else {
        '9'
    }
}

/// The decimal digits of `n`, most significant first.
pub open spec fn decimal_spec(n: nat) -> Seq<char>
    decreases n,
{
    if n < 10 {
        seq![decimal_digit(n)]
    } else {
        decimal_spec(n / 10) + seq![decimal_digit(n % 10)]
    }
}

fn digit_str(d: u64) -> (r: &'static str)
    requires
        d < 10,
    ensures
        r@ == seq![decimal_digit(d as nat)],
{
    proof {
        reveal_strlit("0");
        reveal_strlit("1");
        reveal_strlit("2");
        reveal_strlit("3");
        reveal_strlit("4");
        reveal_strlit("5");
        reveal_strlit("6");
        reveal_strlit("7");
        reveal_strlit("8");
        reveal_strlit("9");
    }
    let r = match d {
        0 => "0",
        1 => "1",
        2 => "2",
        3 => "3",
        4 => "4",
        5 => "5",
        6 => "6",
        7 => "7",
        8 => "8",
        _ => "9",
    };
    proof {
        assert(r@ =~= seq![decimal_digit(d as nat)]);
    }
    r
}

/// The PID record's contents: the process id as decimal text.
pub fn pid_record_text(pid: u64) -> (r: String)
    ensures
        r@ == decimal_spec(pid as nat),
    decreases pid,
{
    if pid < 10 {
        String::from_str(digit_str(pid))
    } else {
        let front = pid_record_text(pid / 10);
        front.concat(digit_str(pid % 10))
    }
}

/// Everything the final process replacement needs.
pub struct LaunchPlan {
    /// The on-disk location of the entrypoint to execute.
    pub entrypoint: String,
    /// The arguments after the command itself.
    pub arguments: Vec<String>,
    /// The working directory: the application rootfs root.
    pub working_dir: String,
    /// The full environment, assignment order significant.
    pub environment: Vec<NameValue>,
    /// The decimal text written to the PID record before the replacement.
    pub pid_text: String,
}

/// What a formed launch plan holds, as a function of the rootfs root, the app
/// description, the inherited `TERM`, and the process id.
pub open spec fn launch_plan_formed(
    root: Seq<char>,
    app: App,
    term: Option<String>,
    pid: u64,
    plan: LaunchPlan,
) -> bool {
    let cmd = command_of(app.exec_line@);
    let mangled = mangle_env_spec(root, declared_path_value(app.environment@));
    &&& entrypoint_resolved(root, mangled, cmd, plan.entrypoint@)
    &&& (app.exec_line@.len() == 0 ==> plan.arguments@ == Seq::<String>::empty())
    &&& (app.exec_line@.len() > 0 ==> plan.arguments@ == app.exec_line@.subrange(
        1,
        app.exec_line@.len() as int,
    ))
    &&& plan.working_dir@ == root
    &&& env_assembled(root, app.environment@, term, plan.environment@)
    &&& plan.pid_text@ == decimal_spec(pid as nat)
}

/// Plans the process replacement: picks the command (default `sh`), mangles
/// the declared or fallback `PATH` into the rootfs, resolves the entrypoint
/// through it, and assembles arguments, environment, working directory and
/// PID record. Fails only when a bare command is found in no search-path
/// directory.
pub fn plan_launch(app_root: &str, app: &App, term: &Option<String>, pid: u64) -> (r: Result<
    LaunchPlan,
    InitError,
>)
    ensures
        (match r {
            Ok(plan) => launch_plan_formed(app_root@, *app, *term, pid, plan),
            Err(e) => e is ResolutionError && !is_absolute_path(command_of(app.exec_line@)),
        }),
{
    let cmd = exec_command(&app.exec_line);
    let path_value = match crate::manifest::find_env_value(&app.environment, "PATH") {
        Some(v) => v.clone(),
        None => String::from_str(default_search_path()),
    };
    let mangled_path = mangle_env(app_root, path_value.as_str());
    let entrypoint = match resolve_in_root_with_path(app_root, mangled_path.as_str(), cmd.as_str())
        {
        Some(p) => p,
        None => {
            return Err(InitError::ResolutionError);
        },
    };
    let arguments = exec_arguments(&app.exec_line);
    let environment = build_env(app_root, &app.environment, term);
    let working_dir = String::from_str(app_root);
    let pid_text = pid_record_text(pid);
    Ok(LaunchPlan { entrypoint, arguments, working_dir, environment, pid_text })
}

} // verus!
