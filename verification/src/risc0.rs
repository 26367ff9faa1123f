//! The syscall transport.
//!
//! The guest reads its monotonic cycle register locally and ships each named
//! measurement as one name-terminated buffer through a single blocking
//! request/response exchange on a host-registered channel. The host decodes
//! received buffers with [`crate::codec::deserialize_metrics_call`].

use vstd::prelude::*;

use risc0_zkvm_platform::syscall::SyscallName;

use crate::HEAP_TOP_ADDRESS;
use crate::codec::serialize_metric;

verus! {

/// The channel identifier of the syscall transport: a host-registered name.
/// Guest and host must agree on it, or records are silently misrouted.
#[verifier::external_type_specification]
#[verifier::external_body]
pub struct ExSyscallName(SyscallName);

/// Relies on risc0_zkvm_platform::syscall::sys_cycle_count: a local read of
/// the guest VM's monotonic cycle register, meaningful only inside the VM.
#[verifier::external_body]
pub fn get_cycle_count() -> (r: u64) {
    risc0_zkvm_platform::syscall::sys_cycle_count()
}

/// Relies on risc0_zkvm::guest::env::send_recv_slice: a blocking
/// request/response exchange with the host on the given channel; the (empty)
/// response is discarded.
#[verifier::external_body]
fn send_metric_bytes(channel: SyscallName, bytes: &[u8]) {
    risc0_zkvm::guest::env::send_recv_slice::<u8, u8>(channel, bytes);
}

/// Ship one named measurement: encode it in the name-terminated layout and
/// perform one blocking exchange on the metrics channel.
pub fn report_cycle_count(channel: SyscallName, name: &str, cycle_count: u64, free_heap_bytes: u64)
    requires
        !name@.contains('\0'),
{
    let serialized: Vec<u8> = serialize_metric(name, cycle_count, free_heap_bytes);
    send_metric_bytes(channel, serialized.as_slice());
}

/// Relies on std's Box allocation: the address of a freshly allocated probe
/// value, which under the guest's bump allocator lies at the allocation
/// frontier. The probe byte is deliberately never freed, as the bump
/// allocator could not reuse it anyway.
#[verifier::external_body]
fn heap_probe_address() -> (r: usize) {
    Box::into_raw(Box::new(0u8)) as usize
}

/// The heap span a probe address witnesses: the distance from the fixed,
/// build-configured top of heap down to the probe, clamped to zero for a
/// probe that lies above the top.
pub fn heap_span(probe: u64) -> (r: u64)
    ensures
        r == if probe <= HEAP_TOP_ADDRESS {
            (HEAP_TOP_ADDRESS - probe) as u64
        } else {
            0u64
        },
{
    if probe <= HEAP_TOP_ADDRESS {
        HEAP_TOP_ADDRESS - probe
    } else {
        0
    }
}

/// Coarse count of heap bytes still available: [`heap_span`] of a freshly
/// allocated probe's address. Valid only under a bump allocation discipline
/// where addresses grow upward from a known base; an approximation, not an
/// exact free-byte count. The probe is machine state, so this function's own
/// contract can bound the result only; the exact clamped distance is the
/// contract of [`heap_span`].
pub fn get_available_heap() -> (r: u64)
    ensures
        r <= HEAP_TOP_ADDRESS,
{
    let probe: u64 = heap_probe_address() as u64;
    heap_span(probe)
}

} // verus!
