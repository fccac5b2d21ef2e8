use stage1_init::dispatch::{classify_invocation, immediate_exit_code, Invocation};
use stage1_init::errors::InitError;
use stage1_init::manifest::{App, NameValue, PodManifest, RuntimeApp};
use stage1_init::pipeline::{check_flags, pipeline_step, PipelineAction, PipelineEvent,
    PipelineState};
use stage1_init::tool::ToolOutput;

fn begin(mds: &str, users: &str, host: &str) -> PipelineEvent {
    PipelineEvent::Begin {
        mds_token: mds.to_string(),
        private_users: users.to_string(),
        hostname: host.to_string(),
        term: Some("xterm".to_string()),
        pid: 1,
    }
}

fn one_app_manifest() -> PodManifest {
    PodManifest {
        apps: vec![
            RuntimeApp {
                name: "app1".to_string(),
                app: App {
                    exec_line: vec!["/bin/myapp".to_string(), "--flag".to_string()],
                    user: String::new(),
                    group: String::new(),
                    environment: vec![
                        NameValue { name: "PATH".to_string(), value: "/usr/bin".to_string() },
                    ],
                    working_directory: String::new(),
                },
            },
        ],
    }
}

#[test]
fn gc_always_exits_zero_and_enter_always_fails() {
    let gc = classify_invocation("gc");
    assert!(matches!(gc, Invocation::GarbageCollect));
    assert_eq!(immediate_exit_code(&gc), Some(0));
    let enter = classify_invocation("enter");
    assert!(matches!(enter, Invocation::Enter));
    assert_eq!(immediate_exit_code(&enter), Some(254));
    let unknown = classify_invocation("whatever");
    assert!(matches!(unknown, Invocation::Unknown));
    assert_eq!(immediate_exit_code(&unknown), Some(254));
    let init = classify_invocation("init");
    assert!(matches!(init, Invocation::RunInit));
    assert_eq!(immediate_exit_code(&init), None);
}

#[test]
fn restricted_flags_must_be_empty() {
    assert!(check_flags("", "", "").is_ok());
    let e = check_flags("", "", "foo").unwrap_err();
    assert!(matches!(e, InitError::FlagError { .. }));
    assert_eq!(e.message(), "unsupported flag 'foo' specified");
    assert!(check_flags("tok", "", "").is_err());
    assert!(check_flags("", "shift", "").is_err());
}

#[test]
fn nonempty_restricted_flag_aborts_before_any_mutation() {
    let (state, action) = pipeline_step(PipelineState::Start, begin("", "", "foo"));
    assert!(matches!(action, PipelineAction::Fail));
    match state {
        PipelineState::Aborted { error } => {
            assert_eq!(error.message(), "unsupported flag 'foo' specified");
        },
        _ => panic!("expected an aborted pipeline"),
    }
}

#[test]
fn missing_manifest_aborts_with_manifest_error() {
    let (state, _) = pipeline_step(PipelineState::Start, begin("", "", ""));
    let (state, action) = pipeline_step(
        state,
        PipelineEvent::ManifestLoaded { manifest: None, pod_root: Some("/pod".to_string()) },
    );
    assert!(matches!(action, PipelineAction::Fail));
    assert!(matches!(
        state,
        PipelineState::Aborted { error: InitError::ManifestError { .. } }
    ));
}

#[test]
fn two_app_manifest_aborts_with_manifest_error() {
    let manifest = PodManifest {
        apps: vec![
            RuntimeApp {
                name: "a".to_string(),
                app: App {
                    exec_line: vec![],
                    user: String::new(),
                    group: String::new(),
                    environment: vec![],
                    working_directory: String::new(),
                },
            },
            RuntimeApp {
                name: "b".to_string(),
                app: App {
                    exec_line: vec![],
                    user: String::new(),
                    group: String::new(),
                    environment: vec![],
                    working_directory: String::new(),
                },
            },
        ],
    };
    let (state, _) = pipeline_step(PipelineState::Start, begin("", "", ""));
    let (state, action) = pipeline_step(
        state,
        PipelineEvent::ManifestLoaded {
            manifest: Some(manifest),
            pod_root: Some("/pod".to_string()),
        },
    );
    assert!(matches!(action, PipelineAction::Fail));
    assert!(matches!(
        state,
        PipelineState::Aborted { error: InitError::ManifestError { .. } }
    ));
}

#[test]
fn pipeline_runs_linearly_to_launch() {
    let approot = "/pod/stage1/rootfs/opt/stage2/app1/rootfs";

    let (state, action) = pipeline_step(PipelineState::Start, begin("", "", ""));
    assert!(matches!(action, PipelineAction::LoadManifest));

    let (state, action) = pipeline_step(
        state,
        PipelineEvent::ManifestLoaded {
            manifest: Some(one_app_manifest()),
            pod_root: Some("/pod".to_string()),
        },
    );
    match &action {
        PipelineAction::RewriteSymlinks { root } => assert_eq!(root, approot),
        _ => panic!("expected the symlink rewrite"),
    }

    let (state, action) = pipeline_step(state, PipelineEvent::SymlinksRewritten { failure: None });
    match &action {
        PipelineAction::RunLinkerConfig { root, tool } => {
            assert_eq!(root, approot);
            assert_eq!(tool, "ldconfig");
        },
        _ => panic!("expected the linker-config run"),
    }

    let listing = "/usr/lib:\n\tlibc.so.6 -> libc.so.6\n/lib:\n";
    let output = ToolOutput {
        success: true,
        status: "exit status: 0".to_string(),
        stdout: listing.to_string(),
        stderr: String::new(),
    };
    let (state, action) = pipeline_step(
        state,
        PipelineEvent::SearchPathResolved { output: Ok(output) },
    );
    match &action {
        PipelineAction::PatchLinkage { root, ldpath, patchelf_bin } => {
            assert_eq!(root, approot);
            assert_eq!(ldpath, &format!("{a}/usr/lib:{a}/lib", a = approot));
            assert_eq!(patchelf_bin, "/pod/stage1/rootfs/bin/patchelf");
        },
        _ => panic!("expected the linkage patching"),
    }

    let (state, action) = pipeline_step(state, PipelineEvent::LinkagePatched { first_error: None });
    match &action {
        PipelineAction::Launch { plan } => {
            assert_eq!(plan.entrypoint, format!("{}/bin/myapp", approot));
            assert_eq!(plan.arguments, vec!["--flag".to_string()]);
            assert_eq!(plan.working_dir, approot);
            assert_eq!(plan.pid_text, "1");
            assert_eq!(plan.environment.len(), 2);
            assert_eq!(plan.environment[0].name, "TERM");
            assert_eq!(plan.environment[0].value, "xterm");
            assert_eq!(plan.environment[1].name, "PATH");
            assert_eq!(plan.environment[1].value, format!("{}/usr/bin", approot));
        },
        _ => panic!("expected the launch"),
    }
    assert!(matches!(state, PipelineState::Launching));

    let (state, action) = pipeline_step(
        state,
        PipelineEvent::LaunchFailed { detail: "no such file".to_string() },
    );
    assert!(matches!(action, PipelineAction::Fail));
    match state {
        PipelineState::Aborted { error } => {
            assert_eq!(
                error.message(),
                "external tool error: error executing entrypoint: no such file"
            );
        },
        _ => panic!("expected an aborted pipeline"),
    }
}

#[test]
fn failed_linker_config_aborts() {
    let (state, _) = pipeline_step(PipelineState::Start, begin("", "", ""));
    let (state, _) = pipeline_step(
        state,
        PipelineEvent::ManifestLoaded {
            manifest: Some(one_app_manifest()),
            pod_root: Some("/pod".to_string()),
        },
    );
    let (state, _) = pipeline_step(state, PipelineEvent::SymlinksRewritten { failure: None });
    let (state, action) = pipeline_step(
        state,
        PipelineEvent::SearchPathResolved { output: Err("os error 2".to_string()) },
    );
    assert!(matches!(action, PipelineAction::Fail));
    match state {
        PipelineState::Aborted { error } => assert_eq!(
            error.message(),
            "external tool error: could not execute ldconfig: os error 2"
        ),
        _ => panic!("expected an aborted pipeline"),
    }
}

#[test]
fn failed_symlink_rewrite_aborts() {
    let (state, _) = pipeline_step(PipelineState::Start, begin("", "", ""));
    let (state, _) = pipeline_step(
        state,
        PipelineEvent::ManifestLoaded {
            manifest: Some(one_app_manifest()),
            pod_root: Some("/pod".to_string()),
        },
    );
    let (state, action) = pipeline_step(
        state,
        PipelineEvent::SymlinksRewritten { failure: Some("could not remove a link".to_string()) },
    );
    assert!(matches!(action, PipelineAction::Fail));
    match state {
        PipelineState::Aborted { error } => {
            assert_eq!(error.message(), "filesystem error: could not remove a link");
        },
        _ => panic!("expected an aborted pipeline"),
    }
}
