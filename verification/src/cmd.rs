//! TDX commands, as `KVM_MEMORY_ENCRYPT_OP` takes them, and what their replies mean.

use vstd::prelude::*;

verus! {

/// The commands of the KVM interface to TDX, numbered from zero in this order.
#[derive(Clone, Copy, Debug, PartialEq, Eq)]
pub enum CmdId {
    GetCapabilities,
    InitVm,
    InitVcpu,
    ExtendMemory,
    FinalizeVm,
}

impl CmdId {
    /// The number of the command in the kernel's interface.
    pub open spec fn spec_number(self) -> u32 {
        match self {
            CmdId::GetCapabilities => 0,
            CmdId::InitVm => 1,
            CmdId::InitVcpu => 2,
            CmdId::ExtendMemory => 3,
            CmdId::FinalizeVm => 4,
        }
    }

    /// The number of the command in the kernel's interface.
    pub fn number(self) -> (r: u32)
        ensures
            r == self.spec_number(),
    {
        match self {
            CmdId::GetCapabilities => 0,
            CmdId::InitVm => 1,
            CmdId::InitVcpu => 2,
            CmdId::ExtendMemory => 3,
            CmdId::FinalizeVm => 4,
        }
    }
}

/// A command block.
#[derive(Clone, Copy, Debug, PartialEq, Eq)]
pub struct Cmd {
    /// The number of the command.
    pub id: u32,
    /// Flags of the command.
    pub flags: u32,
    /// The argument of the command: an immediate value, or the address of a parameter block.
    pub data: u64,
    /// Where the kernel reports an error of the TDX module.
    pub error: u64,
    pub _unused: u64,
}

/// The command block of `id` with the argument `data`, all else zero.
pub open spec fn command(id: CmdId, data: u64) -> Cmd {
    Cmd { id: id.spec_number(), flags: 0, data, error: 0, _unused: 0 }
}

impl Cmd {
    /// The command block of `id` with the argument `data`.
    pub fn new(id: CmdId, data: u64) -> (r: Cmd)
        ensures
            r == command(id, data),
    {
        Cmd { id: id.number(), flags: 0, data, error: 0, _unused: 0 }
    }

    /// Asks for the capabilities of the TDX module, to be written to the block at `address`.
    pub fn get_capabilities(address: u64) -> (r: Cmd)
        ensures
            r == command(CmdId::GetCapabilities, address),
    {
        Cmd::new(CmdId::GetCapabilities, address)
    }

    /// Initialises a machine with the parameters in the block at `address`.
    pub fn init_vm(address: u64) -> (r: Cmd)
        ensures
            r == command(CmdId::InitVm, address),
    {
        Cmd::new(CmdId::InitVm, address)
    }

    /// Measures the pages that the mapping at `address` names.
    pub fn extend_memory(address: u64) -> (r: Cmd)
        ensures
            r == command(CmdId::ExtendMemory, address),
    {
        Cmd::new(CmdId::ExtendMemory, address)
    }
}

/// A failed call: the error number that the kernel gave.
#[derive(Clone, Copy, Debug, PartialEq, Eq)]
pub struct TdxError {
    pub code: i32,
}

impl From<i32> for TdxError {
    fn from(code: i32) -> (r: Self) {
        TdxError { code }
    }
}

impl vstd::std_specs::convert::FromSpecImpl<i32> for TdxError {
    open spec fn obeys_from_spec() -> bool {
        true
    }

    open spec fn from_spec(code: i32) -> Self {
        TdxError { code }
    }
}

/// What a call comes to whose reply is a value or an error number.
pub open spec fn outcome<T>(reply: Result<T, i32>) -> Result<T, TdxError> {
    match reply {
        Ok(value) => Ok(value),
        Err(code) => Err(TdxError { code }),
    }
}

/// Passes on the value of a reply, or its error number as a [`TdxError`].
pub fn kvm_result<T>(reply: Result<T, i32>) -> (r: Result<T, TdxError>)
    ensures
        r == outcome(reply),
{
    match reply {
        Ok(value) => Ok(value),
        Err(code) => Err(TdxError::from(code)),
    }
}

/// What a bare ioctl comes to that returned `ret`. A negative `ret` says only that the call
/// failed: why it failed is in `last_errno`, the calling thread's error number after the call.
pub fn ioctl_result(ret: i32, last_errno: i32) -> (r: Result<(), TdxError>)
    ensures
        r == if ret < 0 {
            Err::<(), TdxError>(TdxError { code: last_errno })
        } else {
            Ok(())
        },
{
    if ret < 0 {
        Err(TdxError::from(last_errno))
    } else {
        Ok(())
    }
}

/// No two commands have the same number.
pub proof fn law_commands_have_numbers_of_their_own(a: CmdId, b: CmdId)
    ensures
        a.spec_number() == b.spec_number() ==> a == b,
{
}

} // verus!
