//! Invocation dispatch: the program name it was invoked under selects the
//! behavior — `init` runs the pipeline, `gc` is a no-op that succeeds, and
//! `enter` and every other name fail immediately.

use vstd::prelude::*;

use crate::errors::FAILURE_EXIT;
use crate::paths::str_equal;

verus! {

/// Which behavior an invocation name selects.
pub enum Invocation {
    /// Run the full pipeline.
    RunInit,
    /// Nothing to collect: succeed immediately.
    GarbageCollect,
    /// Not supported: fail immediately.
    Enter,
    /// Any other name: a fatal configuration error.
    Unknown,
}

/// Classifies the name the program was invoked under.
pub fn classify_invocation(bin_name: &str) -> (r: Invocation)
    ensures
        (r is RunInit) == (bin_name@ == "init"@),
        (r is GarbageCollect) == (bin_name@ == "gc"@),
        (r is Enter) == (bin_name@ == "enter"@),
{
    proof {
        reveal_strlit("init");
        reveal_strlit("gc");
        reveal_strlit("enter");
        assert("init"@.len() == 4);
        assert("gc"@.len() == 2);
        assert("enter"@.len() == 5);
    }
    if str_equal(bin_name, "init") {
        Invocation::RunInit
    } else if str_equal(bin_name, "gc") {
        Invocation::GarbageCollect
    } else if str_equal(bin_name, "enter") {
        Invocation::Enter
    } else {
        Invocation::Unknown
    }
}

/// The immediate exit of the sub-commands that never reach the pipeline:
/// `gc` always exits 0 whatever the manifest or flags hold, `enter` and
/// unknown names always exit with the failure code, and `init` has no
/// immediate exit — it runs the pipeline.
pub fn immediate_exit_code(inv: &Invocation) -> (r: Option<u8>)
    ensures
        inv is GarbageCollect ==> r == Some(0u8),
        inv is Enter ==> r == Some(FAILURE_EXIT),
        inv is Unknown ==> r == Some(FAILURE_EXIT),
        inv is RunInit ==> r is None,
{
    match inv {
        Invocation::RunInit => None,
        Invocation::GarbageCollect => Some(0),
        Invocation::Enter => Some(FAILURE_EXIT),
        Invocation::Unknown => Some(FAILURE_EXIT),
    }
}

} // verus!
