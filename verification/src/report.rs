//! What is set up before the program runs.

use vstd::prelude::*;

verus! {

/// Whether the hook is to be installed that turns a panic into a report a
/// user can send in. A build with debug assertions keeps the plain panic,
/// which is what its developer wants to see; every other build installs the
/// hook.
pub fn setup_panic(debug_assertions: bool) -> (install: bool)
    ensures
        install == !debug_assertions,
{
    !debug_assertions
}

} // verus!
