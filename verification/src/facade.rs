//! The no-VM transport.
//!
//! A stand-in backend for builds without a real guest VM: the cycle counter
//! reads as zero, the heap query answers with the fixed top-of-heap placeholder,
//! and reporting is refused outright — asking this backend to ship a metric
//! means the build is missing its intended execution target, so the caller is
//! expected to treat the error as fatal rather than recover.

use vstd::prelude::*;

use crate::HEAP_TOP_ADDRESS;
use crate::TransportError;

verus! {

/// The cycle count when no VM is present: always zero.
pub fn get_cycle_count() -> (r: u64)
    ensures
        r == 0,
{
    0
}

/// Reporting without a VM always fails with `TransportUnavailable`; callers
/// abort on it, as selecting this backend and then reporting is a programming
/// error.
pub fn report_cycle_count(_name: &str, _count: u64, _free_heap_bytes: u64) -> (r: Result<
    (),
    TransportError,
>)
    ensures
        r == Err::<(), TransportError>(TransportError::TransportUnavailable),
{
    Err(TransportError::TransportUnavailable)
}

/// The heap query without a VM: the fixed placeholder, the whole configured
/// heap span.
pub fn get_available_heap() -> (r: u64)
    ensures
        r == HEAP_TOP_ADDRESS,
{
    HEAP_TOP_ADDRESS
}

} // verus!
