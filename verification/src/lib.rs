//! Cycle-instrumentation and metrics-reporting for a constrained guest VM.
//!
//! A traced operation is bracketed with before/after reads of the guest's
//! cycle counter; the named measurement is encoded in a compact binary wire
//! format and shipped to the supervising host, which folds all received
//! records into a table of running sums and counts.
//!
//! The crate is organised around four pieces: the wire codec (`codec`); the
//! transport backends (`risc0` for the syscall-style exchange, `sp1` for the
//! numbered-channel hooks, `facade` for builds without a VM), unified behind
//! one interface in `transport`; the instrumentation wrapper (`wrapper`);
//! and the host-side aggregator (`aggregator`).

use vstd::prelude::*;

pub mod aggregator;
pub mod codec;
pub mod facade;
pub mod risc0;
pub mod sp1;
pub mod transport;
pub mod wrapper;

verus! {

/// The fixed, build-configured top-of-heap address of the guest VM, from
/// which the heap queries measure the remaining span.
pub const HEAP_TOP_ADDRESS: u64 = 0x0C00_0000;

/// Failure of decoding a wire buffer back into a metric record.
#[derive(Clone, Copy, Debug, PartialEq, Eq, Structural)]
pub enum DecodeError {
    /// No NUL terminator was found in a name-terminated buffer.
    MissingTerminator,
    /// Fewer bytes than the fixed-size numeric tail requires.
    Truncated,
    /// The name bytes are not valid UTF-8.
    InvalidName,
}

/// Failure of a transport backend.
#[derive(Clone, Copy, Debug, PartialEq, Eq, Structural)]
pub enum TransportError {
    /// The no-VM facade was asked to report a metric: the build lacks a real
    /// transport, which is a programming error at the call site.
    TransportUnavailable,
    /// The host answered a cycle-count query with other than exactly 8 bytes,
    /// which indicates a protocol-version mismatch.
    MalformedResponse,
}

} // verus!
