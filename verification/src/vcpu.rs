//! The vCPUs of a trust domain.

use vstd::prelude::*;

use crate::cmd::{command, kvm_result, Cmd, CmdId, TdxError};
use crate::ioctl::{kvm_memory_encrypt_op, kvm_request, Ioctl, IOC_READ_WRITE};

verus! {

/// A vCPU, by its handle.
#[derive(Clone, Copy, Debug, PartialEq, Eq)]
pub struct TdxVcpu<F> {
    pub fd: F,
}

impl<F> TdxVcpu<F> {
    /// Takes over a vCPU whose CPUID table has been set. `reply` is what setting it came to.
    pub fn try_from(fd: F, reply: Result<(), i32>) -> (r: Result<Self, TdxError>)
        ensures
            r == match reply {
                Ok(_) => Ok(TdxVcpu { fd }),
                Err(code) => Err(TdxError { code }),
            },
    {
        match kvm_result(reply) {
            Ok(_) => Ok(TdxVcpu { fd }),
            Err(e) => Err(e),
        }
    }

    /// Initialises the vCPU for a guest whose hand-off block list is at `hob_address`. What the
    /// call came to is for [`crate::cmd::ioctl_result`].
    pub fn init(&self, hob_address: u64) -> (r: Ioctl<Cmd>)
        ensures
            r.request == kvm_request(IOC_READ_WRITE as int, 0xba, 8),
            r.arg == command(CmdId::InitVcpu, hob_address),
    {
        init_vcpu(hob_address)
    }
}

/// Initialises a vCPU for a guest whose hand-off block list is at `hob_address`. What the call
/// came to is for [`crate::cmd::ioctl_result`].
pub fn init_vcpu(hob_address: u64) -> (r: Ioctl<Cmd>)
    ensures
        r.request == kvm_request(IOC_READ_WRITE as int, 0xba, 8),
        r.arg == command(CmdId::InitVcpu, hob_address),
{
    Ioctl { request: kvm_memory_encrypt_op(), arg: Cmd::new(CmdId::InitVcpu, hob_address) }
}

} // verus!
