//! The backend transport, as one interface with three implementations.
//!
//! Each backend offers the same capability set — read the cycle counter,
//! report a named measurement, query the remaining heap — and a process picks
//! exactly one at startup by constructing the matching [`Transport`] value
//! and passing it to whatever performs the instrumentation. The syscall
//! backend carries the host-registered channel it reports on; the hook
//! backend talks over the fixed numbered channels; the facade stands in when
//! no VM is present.

use vstd::prelude::*;

use risc0_zkvm_platform::syscall::SyscallName;

use crate::HEAP_TOP_ADDRESS;
use crate::TransportError;
use crate::facade;
use crate::risc0;
use crate::sp1;

verus! {

/// One configured transport backend.
pub enum Transport {
    /// The syscall backend, reporting on the given host-registered channel.
    Syscall(SyscallName),
    /// The hook backend, over the fixed numbered channels.
    Hook,
    /// The no-VM stand-in.
    Facade,
}

impl Transport {
    /// The current cycle count. The facade always answers zero; the syscall
    /// backend reads its register locally and cannot fail; the hook backend
    /// fails when the host's answer is malformed.
    pub fn get_cycle_count(&self) -> (r: Result<u64, TransportError>)
        ensures
            self is Facade ==> r == Ok::<u64, TransportError>(0),
            self is Syscall ==> r is Ok,
            r matches Err(e) ==> self is Hook && e == TransportError::MalformedResponse,
    {
        match self {
            Transport::Syscall(_) => Ok(risc0::get_cycle_count()),
            Transport::Hook => sp1::get_cycle_count(),
            Transport::Facade => Ok(facade::get_cycle_count()),
        }
    }

    /// Ship one named measurement. Only the facade refuses, and it always
    /// does: reporting without a VM is a programming error.
    pub fn report_cycle_count(&self, name: &str, cycle_count: u64, free_heap_bytes: u64) -> (r:
        Result<(), TransportError>)
        requires
            !name@.contains('\0'),
        ensures
            r == if self is Facade {
                Err::<(), TransportError>(TransportError::TransportUnavailable)
            } else {
                Ok::<(), TransportError>(())
            },
    {
        match self {
            Transport::Syscall(channel) => {
                risc0::report_cycle_count(*channel, name, cycle_count, free_heap_bytes);
                Ok(())
            },
            Transport::Hook => {
                sp1::report_cycle_count(name, cycle_count, free_heap_bytes);
                Ok(())
            },
            Transport::Facade => facade::report_cycle_count(name, cycle_count, free_heap_bytes),
        }
    }

    /// The heap bytes still available, never more than the configured heap
    /// span; the hook backend and the facade answer with the fixed
    /// placeholder.
    pub fn get_available_heap(&self) -> (r: u64)
        ensures
            r <= HEAP_TOP_ADDRESS,
            self is Hook || self is Facade ==> r == HEAP_TOP_ADDRESS,
    {
        match self {
            Transport::Syscall(_) => risc0::get_available_heap(),
            Transport::Hook => sp1::get_available_heap(),
            Transport::Facade => facade::get_available_heap(),
        }
    }
}

} // verus!
