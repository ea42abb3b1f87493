//! The core counts of the running machine.

use vstd::prelude::*;

verus! {

/// Calls `num_cpus::get` for the number of logical cores available to this
/// process. The count depends on the machine and on how the process is
/// confined; all that is claimed of it is what the function's documentation
/// promises of every call: it is at least 1.
#[verifier::external_body]
pub(crate) fn logical_core_count() -> (count: usize)
    ensures
        count >= 1,
{
    num_cpus::get()
}

/// Calls `num_cpus::get_physical` for the number of physical cores of the
/// machine. All that is claimed of the count is what the function's
/// documentation promises of every call: it is at least 1.
#[verifier::external_body]
pub(crate) fn physical_core_count() -> (count: usize)
    ensures
        count >= 1,
{
    num_cpus::get_physical()
}

} // verus!
