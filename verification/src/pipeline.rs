//! The `init` pipeline as a strictly linear state machine:
//! `Start → LoadingManifest → RewritingSymlinks → ResolvingSearchPath →
//! PatchingLinkage → Launching`, with `Aborted` reachable from every
//! non-terminal state on the first failure and no state revisited. The caller
//! performs each emitted action's outside work — reading the manifest,
//! walking the tree, spawning tools, replacing the process image — and feeds
//! the outcome back as the next event; every decision between two events is
//! made and pinned down here. A successful replacement never returns, so the
//! machine is only ever observed up to `Launching`.

use vstd::prelude::*;
use vstd::string::*;

use crate::errors::InitError;
use crate::launch::{launch_plan_formed, plan_launch, LaunchPlan};
use crate::ldpath::{ldpath_from_tool, ldpath_spec};
use crate::manifest::{select_app, App, PodManifest, RuntimeApp};
use crate::tool::ToolOutput;

verus! {

/// What the pipeline carries between stages once the manifest is known.
pub struct Setup {
    /// The application's rootfs root.
    pub app_root: String,
    /// The linkage editor inside the stage-1 rootfs.
    pub patchelf_bin: String,
    /// The application description from the manifest.
    pub app: App,
    /// The inherited `TERM`, if set.
    pub term: Option<String>,
    /// This process's id.
    pub pid: u64,
}

pub enum PipelineState {
    /// Nothing has happened yet.
    Start,
    /// The flags are acceptable; the manifest is being read.
    LoadingManifest { term: Option<String>, pid: u64 },
    /// The single app is known; its symlinks are being rewritten.
    RewritingSymlinks { setup: Setup },
    /// The linker-configuration tool is computing the search directories.
    ResolvingSearchPath { setup: Setup },
    /// Every candidate binary is being patched.
    PatchingLinkage { setup: Setup, ldpath: String },
    /// The PID record is being written and the process image replaced.
    Launching,
    /// Terminal: the process image was replaced. A successful replacement
    /// does not return, so this state is never observed from inside.
    Launched,
    /// Terminal: the first failure, typed; the caller prints its message and
    /// exits with the failure code.
    Aborted { error: InitError },
}

pub enum PipelineEvent {
    /// The run begins: the restricted flag values, the inherited `TERM`, and
    /// this process's id.
    Begin {
        mds_token: String,
        private_users: String,
        hostname: String,
        term: Option<String>,
        pid: u64,
    },
    /// The manifest document was read and structurally decoded (`None`:
    /// missing or malformed) and the working directory queried (`None`: the
    /// query failed).
    ManifestLoaded { manifest: Option<PodManifest>, pod_root: Option<String> },
    /// The symlink walk finished (`Some`: the first failure's description).
    SymlinksRewritten { failure: Option<String> },
    /// The linker-configuration tool finished (`Err`: it could not be
    /// spawned, with the OS error's description).
    SearchPathResolved { output: Result<ToolOutput, String> },
    /// The linkage walk finished (`Some`: its first error).
    LinkagePatched { first_error: Option<InitError> },
    /// The process replacement returned, with the OS error's description.
    LaunchFailed { detail: String },
}

pub enum PipelineAction {
    /// Read and decode the pod manifest; query the working directory.
    LoadManifest,
    /// Rewrite every symlink under `root`, each link's new target given by
    /// `symlink_new_target`.
    RewriteSymlinks { root: String },
    /// Run the named linker-configuration tool against `root` and capture
    /// its output.
    RunLinkerConfig { root: String, tool: String },
    /// Patch every candidate under `root` — decisions given by
    /// `elf_candidate`, `interp_new_value` and `linkage_edit_outcome` — with
    /// `ldpath` as the new search path and `patchelf_bin` as the editor.
    PatchLinkage { root: String, ldpath: String, patchelf_bin: String },
    /// Write the PID record and replace the process image as planned.
    Launch { plan: LaunchPlan },
    /// Print the aborted state's message and exit with the failure code.
    Fail,
}

/// Which event answers which state's outstanding work.
pub open spec fn event_fits(state: PipelineState, event: PipelineEvent) -> bool {
    ||| (state is Start && event is Begin)
    ||| (state is LoadingManifest && event is ManifestLoaded)
    ||| (state is RewritingSymlinks && event is SymlinksRewritten)
    ||| (state is ResolvingSearchPath && event is SearchPathResolved)
    ||| (state is PatchingLinkage && event is LinkagePatched)
    ||| (state is Launching && event is LaunchFailed)
}

/// Whether an event answers a state's outstanding work, decided at run time:
/// a driver can test the pairing before stepping the machine.
pub fn event_fits_check(state: &PipelineState, event: &PipelineEvent) -> (r: bool)
    ensures
        r == event_fits(*state, *event),
{
    match (state, event) {
        (PipelineState::Start, PipelineEvent::Begin { .. }) => true,
        (PipelineState::LoadingManifest { .. }, PipelineEvent::ManifestLoaded { .. }) => true,
        (PipelineState::RewritingSymlinks { .. }, PipelineEvent::SymlinksRewritten { .. }) => true,
        (PipelineState::ResolvingSearchPath { .. }, PipelineEvent::SearchPathResolved { .. }) => true,
        (PipelineState::PatchingLinkage { .. }, PipelineEvent::LinkagePatched { .. }) => true,
        (PipelineState::Launching, PipelineEvent::LaunchFailed { .. }) => true,
        _ => false,
    }
}

/// Where the app's nested rootfs lives under the pod root.
pub open spec fn app_root_spec(pod_root: Seq<char>, name: Seq<char>) -> Seq<char> {
    pod_root + "/stage1/rootfs/opt/stage2/"@ + name + "/rootfs"@
}

/// Where the linkage editor lives inside the stage-1 rootfs.
pub open spec fn patchelf_bin_spec(pod_root: Seq<char>) -> Seq<char> {
    pod_root + "/stage1/rootfs/bin/patchelf"@
}

fn app_root_path(pod_root: &str, name: &str) -> (r: String)
    ensures
        r@ == app_root_spec(pod_root@, name@),
{
    let r = String::from_str(pod_root).concat("/stage1/rootfs/opt/stage2/").concat(name).concat(
        "/rootfs",
    );
    proof {
        assert(r@ =~= app_root_spec(pod_root@, name@));
    }
    r
}

fn patchelf_bin_path(pod_root: &str) -> (r: String)
    ensures
        r@ == patchelf_bin_spec(pod_root@),
{
    String::from_str(pod_root).concat("/stage1/rootfs/bin/patchelf")
}

/// The restricted flags `--mds-token`, `--private-users` and `--hostname` are
/// recognized but must be empty: the first non-empty one is a fatal flag
/// error, raised before any filesystem work.
pub fn check_flags(mds_token: &str, private_users: &str, hostname: &str) -> (r: Result<
    (),
    InitError,
>)
    ensures
        (match r {
            Ok(u) => mds_token@.len() == 0 && private_users@.len() == 0 && hostname@.len() == 0,
            Err(e) => (mds_token@.len() > 0 || private_users@.len() > 0 || hostname@.len() > 0) && (
            e matches InitError::FlagError { flag } && flag@ == (if mds_token@.len() > 0 {
                mds_token@
            } else if private_users@.len() > 0 {
                private_users@
            } else {
                hostname@
            })),
        }),
{
    if mds_token.unicode_len() > 0 {
        return Err(InitError::FlagError { flag: String::from_str(mds_token) });
    }
    if private_users.unicode_len() > 0 {
        return Err(InitError::FlagError { flag: String::from_str(private_users) });
    }
    if hostname.unicode_len() > 0 {
        return Err(InitError::FlagError { flag: String::from_str(hostname) });
    }
    Ok(())
}

/// What the setup built from a loaded manifest holds.
pub open spec fn setup_formed(
    setup: Setup,
    pod_root: Seq<char>,
    ra: RuntimeApp,
    term: Option<String>,
    pid: u64,
) -> bool {
    &&& setup.app_root@ == app_root_spec(pod_root, ra.name@)
    &&& setup.patchelf_bin@ == patchelf_bin_spec(pod_root)
    &&& setup.app == ra.app
    &&& setup.term == term
    &&& setup.pid == pid
}

/// One transition of the machine: from the current state and the outcome of
/// its outstanding work to the next state and the next piece of work. The
/// first failure of any stage moves to `Aborted` with the stage's typed
/// error.
pub fn pipeline_step(state: PipelineState, event: PipelineEvent) -> (r: (
    PipelineState,
    PipelineAction,
))
    requires
        event_fits(state, event),
    ensures
        ({
            let next = r.0;
            let action = r.1;
            match (state, event) {
                (
                    PipelineState::Start,
                    PipelineEvent::Begin { mds_token, private_users, hostname, term, pid },
                ) => {
                    if mds_token@.len() == 0 && private_users@.len() == 0 && hostname@.len() == 0 {
                        &&& (next matches PipelineState::LoadingManifest { term: t2, pid: p2 }
                            && t2 == term && p2 == pid)
                        &&& action is LoadManifest
                    } else {
                        &&& (next matches PipelineState::Aborted { error } && (
                        error matches InitError::FlagError { flag } && flag@ == (
                        if mds_token@.len() > 0 {
                            mds_token@
                        } else if private_users@.len() > 0 {
                            private_users@
                        } else {
                            hostname@
                        })))
                        &&& action is Fail
                    }
                },
                (
                    PipelineState::LoadingManifest { term, pid },
                    PipelineEvent::ManifestLoaded { manifest, pod_root },
                ) => {
                    match (manifest, pod_root) {
                        (Some(m), Some(root)) => {
                            if m.apps@.len() == 1 {
                                &&& (next matches PipelineState::RewritingSymlinks { setup }
                                    && setup_formed(setup, root@, m.apps@[0], term, pid))
                                &&& (action matches PipelineAction::RewriteSymlinks { root: r2 }
                                    && r2@ == app_root_spec(root@, m.apps@[0].name@))
                            } else {
                                &&& (next matches PipelineState::Aborted { error }
                                    && error is ManifestError)
                                &&& action is Fail
                            }
                        },
                        (None, _) => {
                            &&& (next matches PipelineState::Aborted { error }
                                && error is ManifestError)
                            &&& action is Fail
                        },
                        (Some(m2), None) => {
                            &&& (next matches PipelineState::Aborted { error }
                                && error is FilesystemError)
                            &&& action is Fail
                        },
                    }
                },
                (
                    PipelineState::RewritingSymlinks { setup },
                    PipelineEvent::SymlinksRewritten { failure },
                ) => {
                    match failure {
                        None => {
                            &&& (next matches PipelineState::ResolvingSearchPath { setup: s2 }
                                && s2 == setup)
                            &&& (action matches PipelineAction::RunLinkerConfig { root, tool }
                                && root@ == setup.app_root@ && tool@ == "ldconfig"@)
                        },
                        Some(d) => {
                            &&& (next matches PipelineState::Aborted { error } && (
                            error matches InitError::FilesystemError { detail } && detail == d))
                            &&& action is Fail
                        },
                    }
                },
                (
                    PipelineState::ResolvingSearchPath { setup },
                    PipelineEvent::SearchPathResolved { output },
                ) => {
                    if output matches Ok(o) && o.success {
                        &&& (next matches PipelineState::PatchingLinkage { setup: s2, ldpath }
                            && s2 == setup && (output matches Ok(o2) ==> ldpath@ == ldpath_spec(
                            setup.app_root@,
                            o2.stdout@,
                        )))
                        &&& (action matches PipelineAction::PatchLinkage {
                            root,
                            ldpath,
                            patchelf_bin,
                        } && root@ == setup.app_root@ && patchelf_bin@ == setup.patchelf_bin@ && (
                        output matches Ok(o3) ==> ldpath@ == ldpath_spec(
                            setup.app_root@,
                            o3.stdout@,
                        )))
                    } else {
                        &&& (next matches PipelineState::Aborted { error }
                            && error is ExternalToolError)
                        &&& action is Fail
                    }
                },
                (
                    PipelineState::PatchingLinkage { setup, ldpath },
                    PipelineEvent::LinkagePatched { first_error },
                ) => {
                    match first_error {
                        Some(e) => {
                            &&& (next matches PipelineState::Aborted { error } && error == e)
                            &&& action is Fail
                        },
                        None => {
                            match r {
                                (
                                    PipelineState::Launching,
                                    PipelineAction::Launch { plan },
                                ) => launch_plan_formed(
                                    setup.app_root@,
                                    setup.app,
                                    setup.term,
                                    setup.pid,
                                    plan,
                                ),
                                (PipelineState::Aborted { error }, PipelineAction::Fail) => error
                                    is ResolutionError,
                                _ => false,
                            }
                        },
                    }
                },
                (PipelineState::Launching, PipelineEvent::LaunchFailed { detail }) => {
                    &&& (next matches PipelineState::Aborted { error } && (
                    error matches InitError::ExternalToolError { detail: d } && d@
                        == "error executing entrypoint: "@ + detail@))
                    &&& action is Fail
                },
                _ => true,
            }
        }),
{
    match (state, event) {
        (
            PipelineState::Start,
            PipelineEvent::Begin { mds_token, private_users, hostname, term, pid },
        ) => {
            match check_flags(mds_token.as_str(), private_users.as_str(), hostname.as_str()) {
                Ok(u) => (
                    PipelineState::LoadingManifest { term, pid },
                    PipelineAction::LoadManifest,
                ),
                Err(e) => (PipelineState::Aborted { error: e }, PipelineAction::Fail),
            }
        },
        (
            PipelineState::LoadingManifest { term, pid },
            PipelineEvent::ManifestLoaded { manifest, pod_root },
        ) => {
            let m = match manifest {
                None => {
                    return (
                        PipelineState::Aborted {
                            error: InitError::ManifestError {
                                detail: String::from_str(
                                    "could not open or decode the pod manifest",
                                ),
                            },
                        },
                        PipelineAction::Fail,
                    );
                },
                Some(m) => m,
            };
            let root = match pod_root {
                None => {
                    return (
                        PipelineState::Aborted {
                            error: InitError::FilesystemError {
                                detail: String::from_str("could not get the working directory"),
                            },
                        },
                        PipelineAction::Fail,
                    );
                },
                Some(root) => root,
            };
            match select_app(m) {
                Err(e) => (PipelineState::Aborted { error: e }, PipelineAction::Fail),
                Ok(ra) => {
                    let app_root = app_root_path(root.as_str(), ra.name.as_str());
                    let patchelf_bin = patchelf_bin_path(root.as_str());
                    let action_root = app_root.clone();
                    let setup = Setup { app_root, patchelf_bin, app: ra.app, term, pid };
                    (
                        PipelineState::RewritingSymlinks { setup },
                        PipelineAction::RewriteSymlinks { root: action_root },
                    )
                },
            }
        },
        (
            PipelineState::RewritingSymlinks { setup },
            PipelineEvent::SymlinksRewritten { failure },
        ) => {
            match failure {
                Some(d) => (
                    PipelineState::Aborted { error: InitError::FilesystemError { detail: d } },
                    PipelineAction::Fail,
                ),
                None => {
                    let root = setup.app_root.clone();
                    (
                        PipelineState::ResolvingSearchPath { setup },
                        PipelineAction::RunLinkerConfig { root, tool: String::from_str("ldconfig") },
                    )
                },
            }
        },
        (
            PipelineState::ResolvingSearchPath { setup },
            PipelineEvent::SearchPathResolved { output },
        ) => {
            match ldpath_from_tool(setup.app_root.as_str(), "ldconfig", output) {
                Err(e) => (PipelineState::Aborted { error: e }, PipelineAction::Fail),
                Ok(lp) => {
                    let root = setup.app_root.clone();
                    let patchelf_bin = setup.patchelf_bin.clone();
                    let lp_action = lp.clone();
                    (
                        PipelineState::PatchingLinkage { setup, ldpath: lp },
                        PipelineAction::PatchLinkage { root, ldpath: lp_action, patchelf_bin },
                    )
                },
            }
        },
        (
            PipelineState::PatchingLinkage { setup, ldpath },
            PipelineEvent::LinkagePatched { first_error },
        ) => {
            match first_error {
                Some(e) => (PipelineState::Aborted { error: e }, PipelineAction::Fail),
                None => {
                    match plan_launch(setup.app_root.as_str(), &setup.app, &setup.term, setup.pid)
                        {
                        Ok(plan) => (PipelineState::Launching, PipelineAction::Launch { plan }),
                        Err(e) => (PipelineState::Aborted { error: e }, PipelineAction::Fail),
                    }
                },
            }
        },
        (PipelineState::Launching, PipelineEvent::LaunchFailed { detail }) => {
            let d = String::from_str("error executing entrypoint: ").concat(detail.as_str());
            (
                PipelineState::Aborted { error: InitError::ExternalToolError { detail: d } },
                PipelineAction::Fail,
            )
        },
        _ => (
            PipelineState::Aborted { error: InitError::UnsupportedOperation },
            PipelineAction::Fail,
        ),
    }
}

} // verus!
