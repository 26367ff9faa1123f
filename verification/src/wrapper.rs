//! The instrumentation wrapper.
//!
//! A traced operation is executed exactly once, bracketed by two reads of the
//! cycle counter; the saturated difference and a heap snapshot are then
//! reported under the operation's name. The operation's own result reaches
//! the caller unchanged: the only added observable effects are the two
//! counter reads and the single outbound report.

use vstd::prelude::*;

use risc0_zkvm_platform::syscall::SyscallName;

use crate::TransportError;
use crate::risc0;
use crate::sp1;
use crate::transport::Transport;

verus! {

/// The cycle cost of the bracketed window. The subtraction saturates at zero
/// instead of underflowing, to tolerate counter anomalies.
pub fn cycle_delta(before: u64, after: u64) -> (r: u64)
    ensures
        r == after.saturating_sub(before),
{
    after.saturating_sub(before)
}

/// Run the traced operation once under the syscall transport and report
/// `(name, cycle delta, heap snapshot)` on the given channel; the operation's
/// result is returned unchanged.
pub fn wrap_function<R, F: FnOnce() -> R>(channel: SyscallName, name: &str, operation: F) -> (r: R)
    requires
        call_requires(operation, ()),
        !name@.contains('\0'),
    ensures
        call_ensures(operation, (), r),
{
    let cycles_before: u64 = risc0::get_cycle_count();
    let result = operation();
    let cycles_after: u64 = risc0::get_cycle_count();
    let heap_bytes_free_after: u64 = risc0::get_available_heap();
    let cycles: u64 = cycle_delta(cycles_before, cycles_after);
    risc0::report_cycle_count(channel, name, cycles, heap_bytes_free_after);
    result
}

/// Run the traced operation once under the hook transport and report `(name,
/// cycle delta)` on the metrics channel. `Err` means a cycle-count query got
/// a malformed answer; the caller treats that as fatal, and when it is the
/// opening read that fails the operation has not been run.
pub fn wrap_function_sp1<R, F: FnOnce() -> R>(name: &str, operation: F) -> (r: Result<
    R,
    TransportError,
>)
    requires
        call_requires(operation, ()),
    ensures
        r matches Ok(v) ==> call_ensures(operation, (), v),
        r matches Err(e) ==> e == TransportError::MalformedResponse,
{
    let before: u64 = match sp1::get_cycle_count() {
        Ok(c) => c,
        Err(e) => {
            return Err(e);
        },
    };
    let result = operation();
    let after: u64 = match sp1::get_cycle_count() {
        Ok(c) => c,
        Err(e) => {
            return Err(e);
        },
    };
    let heap_bytes_free_after: u64 = sp1::get_available_heap();
    sp1::report_cycle_count(name, cycle_delta(before, after), heap_bytes_free_after);
    Ok(result)
}

/// Run the traced operation once under whichever backend was configured at
/// startup. Under the syscall backend this cannot fail; under the hook
/// backend an `Err` means a malformed cycle answer; under the facade the
/// report itself is refused. An `Err` stands for the abort the guest then
/// performs, and only when the opening counter read fails has the operation
/// not been run.
pub fn wrap_function_with<R, F: FnOnce() -> R>(
    transport: &Transport,
    name: &str,
    operation: F,
) -> (r: Result<R, TransportError>)
    requires
        call_requires(operation, ()),
        !name@.contains('\0'),
    ensures
        r matches Ok(v) ==> call_ensures(operation, (), v),
        transport is Syscall ==> r is Ok,
        transport is Facade ==> r == Err::<R, TransportError>(TransportError::TransportUnavailable),
        r matches Err(e) ==> (transport is Hook && e == TransportError::MalformedResponse) || (
        transport is Facade && e == TransportError::TransportUnavailable),
{
    let before: u64 = match transport.get_cycle_count() {
        Ok(c) => c,
        Err(e) => {
            return Err(e);
        },
    };
    let result = operation();
    let after: u64 = match transport.get_cycle_count() {
        Ok(c) => c,
        Err(e) => {
            return Err(e);
        },
    };
    let heap_bytes_free_after: u64 = transport.get_available_heap();
    match transport.report_cycle_count(name, cycle_delta(before, after), heap_bytes_free_after) {
        Ok(_) => Ok(result),
        Err(e) => Err(e),
    }
}

} // verus!
