//! The pod manifest data model, its single-app invariant, and lookup of
//! declared environment variables. Reading and structurally deserializing the
//! manifest document is the caller's concern; the rules about its content
//! live here.

use vstd::prelude::*;
use vstd::string::*;

use crate::errors::InitError;
use crate::paths::str_equal;

verus! {

/// One environment variable assignment declared by the manifest.
pub struct NameValue {
    pub name: String,
    pub value: String,
}

/// An application's execution description.
pub struct App {
    /// The command followed by its arguments; an empty sequence falls back to
    /// the default command `sh`. The manifest document names this list
    /// `exec`, a keyword here.
    pub exec_line: Vec<String>,
    /// Informational; unused by the core pipeline.
    pub user: String,
    /// Informational; unused by the core pipeline.
    pub group: String,
    /// Ordered, order-significant variable assignments.
    pub environment: Vec<NameValue>,
    /// Informational; the app always runs with its rootfs root as cwd.
    pub working_directory: String,
}

/// One named application of the pod.
pub struct RuntimeApp {
    /// Locates the app's nested rootfs directory.
    pub name: String,
    pub app: App,
}

/// The pod manifest: exactly one app is valid for execution; zero or several
/// is a fatal configuration error.
pub struct PodManifest {
    pub apps: Vec<RuntimeApp>,
}

/// Yields the single application of the pod, or a `ManifestError` when the
/// manifest holds an app count other than one.
pub fn select_app(manifest: PodManifest) -> (r: Result<RuntimeApp, InitError>)
    ensures
        (match r {
            Ok(app) => manifest.apps@.len() == 1 && app == manifest.apps@[0],
            Err(e) => manifest.apps@.len() != 1 && (e is ManifestError),
        }),
{
    let mut apps = manifest.apps;
    if apps.len() != 1 {
        return Err(
            InitError::ManifestError {
                detail: String::from_str("pod must have exactly one application"),
            },
        );
    }
    match apps.pop() {
        Some(app) => Ok(app),
        None => Err(
            InitError::ManifestError {
                detail: String::from_str("pod must have exactly one application"),
            },
        ),
    }
}

/// Whether some declared pair carries this variable name.
pub open spec fn has_env(env: Seq<NameValue>, name: Seq<char>) -> bool {
    exists|i: int| 0 <= i < env.len() && env[i].name@ == name
}

/// The position of the first declared pair with this name (the sequence
/// length when there is none).
pub open spec fn first_env_index(env: Seq<NameValue>, name: Seq<char>) -> int
    decreases env.len(),
{
    if env.len() == 0 {
        0
    } else if env[0].name@ == name {
        0
    } else {
        1 + first_env_index(env.drop_first(), name)
    }
}

proof fn lemma_first_env_index_at(env: Seq<NameValue>, name: Seq<char>, i: int)
    requires
        0 <= i < env.len(),
        env[i].name@ == name,
        forall|j: int| 0 <= j < i ==> env[j].name@ != name,
    ensures
        first_env_index(env, name) == i,
    decreases i,
{
    if i > 0 {
        lemma_first_env_index_at(env.drop_first(), name, i - 1);
    }
}

/// The value of the first declared pair named `name`, if any.
pub fn find_env_value<'a>(env: &'a Vec<NameValue>, name: &str) -> (r: Option<&'a String>)
    ensures
        (match r {
            Some(v) => has_env(env@, name@) && v@ == env@[first_env_index(env@, name@)].value@,
            None => !has_env(env@, name@),
        }),
{
    let mut i: usize = 0;
    while i < env.len()
        invariant
            i <= env@.len(),
            forall|j: int| 0 <= j < i ==> env@[j].name@ != name@,
        decreases env@.len() - i,
    {
        if str_equal(env[i].name.as_str(), name) {
            proof {
                lemma_first_env_index_at(env@, name@, i as int);
            }
            return Some(&env[i].value);
        }
        i = i + 1;
    }
    None
}

} // verus!
