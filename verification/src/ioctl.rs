//! The numbers of the KVM ioctls that a launch uses.

use vstd::prelude::*;

verus! {

/// The type byte of all KVM ioctls.
pub const KVMIO: u32 = 0xae;

/// The direction of an ioctl that transfers no data.
pub const IOC_NONE: u32 = 0;

/// The direction of an ioctl whose argument the kernel reads.
pub const IOC_WRITE: u32 = 1;

/// The direction of an ioctl whose argument the kernel reads and writes.
pub const IOC_READ_WRITE: u32 = 3;

/// `vmm_sys_util::ioctl::ioctl_expr` packs the direction, the type, the number and the size of an
/// ioctl into one word: the number in bits 0 and up, the type in bits 8 and up, the size in bits
/// 16 and up, the direction in bits 30 and up of a 32-bit word.
pub assume_specification [vmm_sys_util::ioctl::ioctl_expr] (
    dir: core::ffi::c_uint,
    ty: core::ffi::c_uint,
    nr: core::ffi::c_uint,
    size: core::ffi::c_uint,
) -> (r: core::ffi::c_ulong)
    ensures
        r == dir << 30u32 | ty << 8u32 | nr << 0u32 | size << 16u32,
;

/// A call to make: the number of an ioctl and its argument.
#[derive(Clone, Copy, Debug, PartialEq, Eq)]
pub struct Ioctl<T> {
    pub request: u64,
    pub arg: T,
}

/// The number of the KVM ioctl `nr` with the given direction and argument size.
pub open spec fn kvm_request(dir: int, nr: int, size: int) -> int {
    dir * 0x4000_0000 + size * 0x1_0000 + KVMIO * 0x100 + nr
}

/// The number of a KVM ioctl.
fn kvm_ioctl(dir: u32, nr: u32, size: u32) -> (r: u64)
    requires
        dir < 4,
        nr < 0x100,
        size < 0x4000,
    ensures
        r == kvm_request(dir as int, nr as int, size as int),
{
    assert(dir << 30u32 | 0xaeu32 << 8u32 | nr << 0u32 | size << 16u32 == dir * 0x4000_0000 + size
        * 0x1_0000 + 0xae * 0x100 + nr) by (bit_vector)
        requires
            dir < 4,
            nr < 0x100,
            size < 0x4000,
    ;
    vmm_sys_util::ioctl::ioctl_expr(dir, KVMIO, nr, size)
}

/// The number of `KVM_CHECK_EXTENSION`.
pub fn kvm_check_extension() -> (r: u64)
    ensures
        r == kvm_request(IOC_NONE as int, 0x03, 0),
{
    kvm_ioctl(IOC_NONE, 0x03, 0)
}

/// The number of `KVM_MEMORY_ENCRYPT_OP`, declared with an argument of one machine word.
pub fn kvm_memory_encrypt_op() -> (r: u64)
    ensures
        r == kvm_request(IOC_READ_WRITE as int, 0xba, 8),
{
    kvm_ioctl(IOC_READ_WRITE, 0xba, 8)
}

/// The number of `KVM_CREATE_GUEST_MEMFD`.
pub fn kvm_create_guest_memfd() -> (r: u64)
    ensures
        r == kvm_request(IOC_READ_WRITE as int, 0xd4, 64),
{
    kvm_ioctl(IOC_READ_WRITE, 0xd4, 64)
}

/// The number of `KVM_SET_USER_MEMORY_REGION2`.
pub fn kvm_set_user_memory_region2() -> (r: u64)
    ensures
        r == kvm_request(IOC_WRITE as int, 0x49, 160),
{
    kvm_ioctl(IOC_WRITE, 0x49, 160)
}

/// The number of `KVM_SET_MEMORY_ATTRIBUTES`.
pub fn kvm_set_memory_attributes() -> (r: u64)
    ensures
        r == kvm_request(IOC_WRITE as int, 0xd2, 32),
{
    kvm_ioctl(IOC_WRITE, 0xd2, 32)
}

/// The number of `KVM_MEMORY_MAPPING`.
pub fn kvm_memory_mapping() -> (r: u64)
    ensures
        r == kvm_request(IOC_READ_WRITE as int, 0xd5, 32),
{
    kvm_ioctl(IOC_READ_WRITE, 0xd5, 32)
}

/// Asks KVM whether it has the extension `i`.
pub fn check_extension(i: u32) -> (r: Ioctl<u64>)
    ensures
        r.request == kvm_request(IOC_NONE as int, 0x03, 0),
        r.arg == i,
{
    Ioctl { request: kvm_check_extension(), arg: i as u64 }
}

/// Whether an extension is there for which [`check_extension`] returned `ret`.
pub fn extension_is_present(ret: i32) -> (r: bool)
    ensures
        r == (ret > 0),
{
    ret > 0
}

/// No two ioctls that differ in direction, number or argument size have the same request number.
pub proof fn law_requests_have_numbers_of_their_own(
    dir: int,
    nr: int,
    size: int,
    other_dir: int,
    other_nr: int,
    other_size: int,
)
    requires
        0 <= dir < 4,
        0 <= nr < 0x100,
        0 <= size < 0x4000,
        0 <= other_dir < 4,
        0 <= other_nr < 0x100,
        0 <= other_size < 0x4000,
        kvm_request(dir, nr, size) == kvm_request(other_dir, other_nr, other_size),
    ensures
        dir == other_dir,
        nr == other_nr,
        size == other_size,
{
}

} // verus!
