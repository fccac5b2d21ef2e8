use stage1_init::elf::{elf_candidate, interp_new_value, linkage_edit_outcome, str_trim};
use stage1_init::errors::InitError;
use stage1_init::launch::{build_env, exec_arguments, exec_command, pid_record_text};
use stage1_init::ldpath::{ldpath_from_tool, parse_ldconfig_output, split_lines};
use stage1_init::manifest::{find_env_value, select_app, App, NameValue, PodManifest, RuntimeApp};
use stage1_init::resolve::resolve_in_root_with_path;
use stage1_init::symlinks::symlink_new_target;
use stage1_init::tool::ToolOutput;

fn app_with(exec_line: Vec<String>, environment: Vec<NameValue>) -> App {
    App {
        exec_line,
        user: String::new(),
        group: String::new(),
        environment,
        working_directory: String::new(),
    }
}

fn tool(success: bool, stdout: &str) -> ToolOutput {
    let status = if success { "exit status: 0" } else { "exit status: 1" };
    ToolOutput {
        success,
        status: status.to_string(),
        stdout: stdout.to_string(),
        stderr: String::new(),
    }
}

#[test]
fn symlink_absolute_target_is_reanchored() {
    let r = symlink_new_target("/r", "/usr/lib/libc.so");
    assert_eq!(r, Some("/r/usr/lib/libc.so".to_string()));
}

#[test]
fn symlink_relative_target_is_unchanged() {
    assert_eq!(symlink_new_target("/r", "../lib/x.so"), None);
}

#[test]
fn symlink_rewrite_is_idempotent() {
    let first = symlink_new_target("/r", "/usr/lib/libc.so").unwrap();
    assert_eq!(symlink_new_target("/r", &first), None);
}

#[test]
fn ldconfig_listing_is_parsed_and_remapped() {
    let listing = "/usr/lib:\n\tlibc.so.6 -> libc.so.6\n\tlibm.so.6 -> libm.so.6\n/lib:\n";
    assert_eq!(parse_ldconfig_output("/r", listing), "/r/usr/lib:/r/lib");
}

#[test]
fn ldconfig_lines_split() {
    assert_eq!(split_lines("a\r\nb\nc"), vec!["a".to_string(), "b".to_string(), "c".to_string()]);
    assert_eq!(split_lines("a\n"), vec!["a".to_string()]);
    assert_eq!(split_lines(""), Vec::<String>::new());
}

#[test]
fn ldconfig_failure_is_fatal() {
    let r = ldpath_from_tool("/r", "ldconfig", Err("os error 2".to_string()));
    match r {
        Err(e) => assert_eq!(e.message(), "external tool error: could not execute ldconfig: os error 2"),
        Ok(_) => panic!("a spawn failure must be fatal"),
    }
    let mut failed = tool(false, "");
    failed.stderr = "boom".to_string();
    let r = ldpath_from_tool("/r", "ldconfig", Ok(failed));
    match r {
        Err(e) => assert_eq!(
            e.message(),
            "external tool error: expected ldconfig success (exit status: 1): boom"
        ),
        Ok(_) => panic!("a non-zero exit must be fatal"),
    }
    let r = ldpath_from_tool("/r", "ldconfig", Ok(tool(true, "/lib:\n")));
    assert_eq!(r.unwrap(), "/r/lib");
}

#[test]
fn elf_candidate_classification() {
    assert!(!elf_candidate(&None));
    assert!(!elf_candidate(&Some(tool(false, "\tlibc.so.6 => /usr/lib/libc.so.6\n"))));
    assert!(!elf_candidate(&Some(tool(true, "\tnot a dynamic executable\n"))));
    assert!(!elf_candidate(&Some(tool(true, "statically linked\n"))));
    assert!(elf_candidate(&Some(tool(true, "\tlibc.so.6 => /usr/lib/libc.so.6\n"))));
}

#[test]
fn trim_strips_both_ends() {
    assert_eq!(str_trim(" \tx y\n"), "x y");
    assert_eq!(str_trim(""), "");
    assert_eq!(str_trim(" \t\n"), "");
}

#[test]
fn interpreter_is_remapped_from_query() {
    let q = Some(tool(true, "/lib64/ld-linux-x86-64.so.2\n"));
    assert_eq!(interp_new_value("/r", &q), Some("/r/lib64/ld-linux-x86-64.so.2".to_string()));
    assert_eq!(interp_new_value("/r", &Some(tool(false, ""))), None);
    assert_eq!(interp_new_value("/r", &None), None);
}

#[test]
fn linkage_edit_failures_are_fatal() {
    assert!(linkage_edit_outcome(Ok(true), "x").is_ok());
    match linkage_edit_outcome(Ok(false), "/r/bin/a") {
        Err(e) => assert_eq!(e.message(), "external tool error: linkage editor failed on /r/bin/a"),
        Ok(_) => panic!("a non-zero exit must be fatal"),
    }
    match linkage_edit_outcome(Err("os error 2".to_string()), "/r/bin/a") {
        Err(e) => assert_eq!(
            e.message(),
            "external tool error: could not execute the linkage editor on /r/bin/a: os error 2"
        ),
        Ok(_) => panic!("a spawn failure must be fatal"),
    }
}

#[test]
fn resolve_absolute_command_ignores_search_path() {
    let r = resolve_in_root_with_path("/r", "/r/usr/bin:/r/bin", "/bin/foo");
    assert_eq!(r, Some("/r/bin/foo".to_string()));
}

#[test]
fn resolve_finds_first_existing_candidate() {
    let dir = tempfile::tempdir().unwrap();
    let _file = tempfile::Builder::new()
        .prefix("foo")
        .suffix("")
        .rand_bytes(0)
        .tempfile_in(dir.path())
        .unwrap();
    let dir_s = dir.path().to_str().unwrap().to_string();
    let path = format!("/definitely/not/here:{}", dir_s);
    let r = resolve_in_root_with_path("/r", &path, "foo");
    assert_eq!(r, Some(format!("{}/foo", dir_s)));
}

#[test]
fn resolve_returns_nothing_when_no_candidate_exists() {
    let r = resolve_in_root_with_path("/r", "/definitely/not/here:/nor/here", "foo");
    assert_eq!(r, None);
}

#[test]
fn manifest_must_hold_exactly_one_app() {
    let none = PodManifest { apps: vec![] };
    assert!(matches!(select_app(none), Err(InitError::ManifestError { .. })));
    let two = PodManifest {
        apps: vec![
            RuntimeApp { name: "a".to_string(), app: app_with(vec![], vec![]) },
            RuntimeApp { name: "b".to_string(), app: app_with(vec![], vec![]) },
        ],
    };
    assert!(matches!(select_app(two), Err(InitError::ManifestError { .. })));
    let one = PodManifest {
        apps: vec![RuntimeApp { name: "a".to_string(), app: app_with(vec![], vec![]) }],
    };
    assert_eq!(select_app(one).unwrap().name, "a");
}

#[test]
fn empty_exec_list_falls_back_to_sh() {
    assert_eq!(exec_command(&vec![]), "sh");
    assert_eq!(exec_command(&vec!["/bin/x".to_string(), "-v".to_string()]), "/bin/x");
    assert_eq!(exec_arguments(&vec![]), Vec::<String>::new());
    assert_eq!(
        exec_arguments(&vec!["/bin/x".to_string(), "-v".to_string(), "-q".to_string()]),
        vec!["-v".to_string(), "-q".to_string()]
    );
}

#[test]
fn env_lookup_finds_first_match() {
    let env = vec![
        NameValue { name: "A".to_string(), value: "1".to_string() },
        NameValue { name: "PATH".to_string(), value: "/bin".to_string() },
        NameValue { name: "PATH".to_string(), value: "/sbin".to_string() },
    ];
    assert_eq!(find_env_value(&env, "PATH"), Some(&"/bin".to_string()));
    assert_eq!(find_env_value(&env, "B"), None);
}

#[test]
fn environment_is_assembled_in_order() {
    let env = vec![
        NameValue { name: "A".to_string(), value: "1".to_string() },
        NameValue { name: "LD_LIBRARY_PATH".to_string(), value: "/lib:/usr/lib".to_string() },
    ];
    let out = build_env("/r", &env, &Some("vt100".to_string()));
    assert_eq!(out.len(), 4);
    assert_eq!((out[0].name.as_str(), out[0].value.as_str()), ("TERM", "vt100"));
    assert_eq!((out[1].name.as_str(), out[1].value.as_str()), ("A", "1"));
    assert_eq!(
        (out[2].name.as_str(), out[2].value.as_str()),
        ("LD_LIBRARY_PATH", "/r/lib:/r/usr/lib")
    );
    assert_eq!(out[3].name.as_str(), "PATH");
    assert_eq!(
        out[3].value.as_str(),
        "/r/sbin:/r/usr/sbin:/r/bin:/r/usr/bin:/r/usr/local/sbin:/r/usr/local/bin"
    );
}

#[test]
fn declared_path_is_mangled_in_place() {
    let env = vec![NameValue { name: "PATH".to_string(), value: "/usr/bin".to_string() }];
    let out = build_env("/r", &env, &None);
    assert_eq!(out.len(), 1);
    assert_eq!((out[0].name.as_str(), out[0].value.as_str()), ("PATH", "/r/usr/bin"));
}

#[test]
fn empty_exec_list_resolves_sh_through_path() {
    // With an empty root the remapped search path names the declared
    // directories themselves, so the default command is looked up there.
    let dir = tempfile::tempdir().unwrap();
    let _sh = tempfile::Builder::new()
        .prefix("sh")
        .suffix("")
        .rand_bytes(0)
        .tempfile_in(dir.path())
        .unwrap();
    let dir_s = dir.path().to_str().unwrap().to_string();
    let app = app_with(
        vec![],
        vec![NameValue { name: "PATH".to_string(), value: dir_s.clone() }],
    );
    let plan = stage1_init::launch::plan_launch("", &app, &None, 7).unwrap();
    assert_eq!(plan.entrypoint, format!("{}/sh", dir_s));
    assert_eq!(plan.arguments, Vec::<String>::new());
    assert_eq!(plan.pid_text, "7");
}

#[test]
fn pid_record_is_decimal_text() {
    assert_eq!(pid_record_text(0), "0");
    assert_eq!(pid_record_text(1), "1");
    assert_eq!(pid_record_text(10), "10");
    assert_eq!(pid_record_text(12345), "12345");
    assert_eq!(pid_record_text(u64::MAX), "18446744073709551615");
}

#[test]
fn error_messages_name_the_failure() {
    assert_eq!(InitError::ResolutionError.message(), "entrypoint not found in PATH");
    assert_eq!(
        InitError::FlagError { flag: "foo".to_string() }.message(),
        "unsupported flag 'foo' specified"
    );
    assert_eq!(InitError::UnsupportedOperation.message(), "operation not supported");
}
