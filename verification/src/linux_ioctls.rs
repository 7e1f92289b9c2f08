//! The ioctls that set up guest memory.

use vstd::prelude::*;

use crate::guest_memory::{KvmCreateGuestMemfd, KvmMemoryAttributes, KvmUserspaceMemoryRegion2};
use crate::ioctl::{
    kvm_create_guest_memfd, kvm_set_memory_attributes, kvm_set_user_memory_region2, Ioctl,
    IOC_READ_WRITE, IOC_WRITE,
};

verus! {

/// Creates the file of guest memory that `gmem` describes.
pub fn create_guest_memfd(gmem: KvmCreateGuestMemfd) -> (r: Ioctl<KvmCreateGuestMemfd>)
    ensures
        r.request == crate::ioctl::kvm_request(IOC_READ_WRITE as int, 0xd4, 64),
        r.arg == gmem,
{
    Ioctl { request: kvm_create_guest_memfd(), arg: gmem }
}

/// Sets the memory slot that `mem_region` describes.
pub fn set_user_memory_region2(mem_region: KvmUserspaceMemoryRegion2) -> (r: Ioctl<
    KvmUserspaceMemoryRegion2,
>)
    ensures
        r.request == crate::ioctl::kvm_request(IOC_WRITE as int, 0x49, 160),
        r.arg == mem_region,
{
    Ioctl { request: kvm_set_user_memory_region2(), arg: mem_region }
}

/// Sets the attributes of the guest memory that `attr` describes.
pub fn set_memory_attributes(attr: KvmMemoryAttributes) -> (r: Ioctl<KvmMemoryAttributes>)
    ensures
        r.request == crate::ioctl::kvm_request(IOC_WRITE as int, 0xd2, 32),
        r.arg == attr,
{
    Ioctl { request: kvm_set_memory_attributes(), arg: attr }
}

/// Whether a call that sets a memory slot or attributes, and returned `ret`, took effect.
pub fn took_effect(ret: i32) -> (r: bool)
    ensures
        r == (ret == 0),
{
    ret == 0
}

} // verus!
