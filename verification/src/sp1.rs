//! The hook transport.
//!
//! Guest and host talk over numbered byte channels. A cycle-count query is a
//! zero-meaning write to the trigger channel followed by a blocking read of
//! an 8-byte little-endian answer; a report is one count-prefixed buffer
//! written to the metrics channel, with no response awaited.

use vstd::prelude::*;
use vstd::bytes::*;

use crate::HEAP_TOP_ADDRESS;
use crate::TransportError;
use crate::codec::serialize_hook_record;

verus! {

/// Channel number of the cycle count hook, which is used to query the
/// current cycle count. Can be any number, as long as it does not collide
/// with other hooks, but it must match the host's registration.
pub const FD_CYCLE_COUNT_HOOK: u32 = 1000;

/// Channel number of the metrics hook, which is used to ship named cycle
/// measurements to the host. Same uniqueness and matching rule.
pub const FD_METRICS_HOOK: u32 = 1001;

/// Relies on sp1_lib::io::write: writes the buffer to the numbered output
/// channel of the guest VM.
#[verifier::external_body]
fn hook_write(fd: u32, buf: &[u8]) {
    sp1_lib::io::write(fd, buf);
}

/// Relies on sp1_lib::io::read_vec: blocks until the host has answered on
/// the input channel and returns whatever bytes arrived (the VM halts the
/// guest when the input stream is empty, so this does not return in that
/// case).
#[verifier::external_body]
fn hook_read() -> (r: Vec<u8>) {
    sp1_lib::io::read_vec()
}

/// Interpret the host's answer to a cycle-count query: it must be exactly 8
/// bytes, read as little-endian. Any other length is a protocol-version
/// mismatch that must not be papered over.
pub fn decode_cycle_response(response: &[u8]) -> (r: Result<u64, TransportError>)
    ensures
        r == if response@.len() == 8 {
            Ok::<u64, TransportError>(spec_u64_from_le_bytes(response@))
        } else {
            Err::<u64, TransportError>(TransportError::MalformedResponse)
        },
{
    if response.len() == 8 {
        Ok(u64_from_le_bytes(response))
    } else {
        Err(TransportError::MalformedResponse)
    }
}

/// Query the current cycle count: trigger the hook, then read and interpret
/// the answer. An `Err` means the host answered with other than 8 bytes; the
/// caller treats that as fatal.
pub fn get_cycle_count() -> (r: Result<u64, TransportError>)
    ensures
        r matches Err(e) ==> e == TransportError::MalformedResponse,
{
    // Writing zero bytes would be a no-op, so one zero byte is the trigger.
    let trigger: Vec<u8> = vec![0u8];
    hook_write(FD_CYCLE_COUNT_HOOK, trigger.as_slice());
    let response: Vec<u8> = hook_read();
    decode_cycle_response(response.as_slice())
}

/// Ship one named measurement: one count-prefixed buffer on the metrics
/// channel. No response is awaited and no heap field is carried.
pub fn report_cycle_count(name: &str, count: u64, _free_heap_bytes: u64) {
    let buf: Vec<u8> = serialize_hook_record(name, count);
    hook_write(FD_METRICS_HOOK, buf.as_slice());
}

/// The heap query on this transport: a fixed placeholder, the whole
/// configured heap span.
pub fn get_available_heap() -> (r: u64)
    ensures
        r == HEAP_TOP_ADDRESS,
{
    HEAP_TOP_ADDRESS
}

} // verus!
