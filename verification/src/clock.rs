use vstd::prelude::*;

verus! {

/// Relies on time::precise_time_ns: the current value of a
/// high-resolution performance counter in nanoseconds since an
/// unspecified epoch.  Nothing is assumed of the value: it depends on
/// when the call happens.
#[verifier::external_body]
pub(crate) fn precise_time_ns() -> u64 {
    time::precise_time_ns()
}

} // verus!
