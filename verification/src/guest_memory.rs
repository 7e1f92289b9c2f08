//! Backing the memory of a trust domain with a file of guest memory.

use vstd::prelude::*;

use crate::ioctl::{kvm_request, Ioctl, IOC_READ_WRITE, IOC_WRITE};
use crate::linux_ioctls;
use crate::tdvf::TdxFirmwareEntry;

verus! {

/// The flag of a memory slot that is backed by a file of guest memory.
pub const KVM_MEM_GUEST_MEMFD: u32 = 1 << 2;

/// The attribute of private guest memory.
pub const KVM_MEMORY_ATTRIBUTE_PRIVATE: u64 = 1 << 3;

/// The argument of `KVM_CREATE_GUEST_MEMFD`.
#[derive(Clone, Copy, Debug, PartialEq, Eq)]
pub struct KvmCreateGuestMemfd {
    pub size: u64,
    pub flags: u64,
    pub reserved: [u64; 6],
}

/// The argument of `KVM_SET_USER_MEMORY_REGION2`.
#[derive(Clone, Copy, Debug, PartialEq, Eq)]
pub struct KvmUserspaceMemoryRegion2 {
    pub slot: u32,
    pub flags: u32,
    pub guest_phys_addr: u64,
    pub memory_size: u64,
    pub userspace_addr: u64,
    pub guest_memfd_offset: u64,
    pub guest_memfd: u32,
    pub pad1: u32,
    pub pad2: [u64; 14],
}

/// The argument of `KVM_SET_MEMORY_ATTRIBUTES`.
#[derive(Clone, Copy, Debug, PartialEq, Eq)]
pub struct KvmMemoryAttributes {
    pub address: u64,
    pub size: u64,
    pub attributes: u64,
    pub flags: u64,
}

/// All words are zero.
pub open spec fn all_zero(words: Seq<u64>) -> bool {
    forall|i: int| 0 <= i < words.len() ==> words[i] == 0
}

/// `fd` as an unsigned word of 32 bits: a negative number wraps around.
pub open spec fn fd_word(fd: i32) -> int {
    if fd >= 0 {
        fd as int
    } else {
        fd + 0x1_0000_0000
    }
}

/// `gmem` asks for a file as large as the section.
pub open spec fn is_file_for(gmem: KvmCreateGuestMemfd, section: TdxFirmwareEntry) -> bool {
    &&& gmem.size == section.memory_data_size
    &&& gmem.flags == 0
    &&& all_zero(gmem.reserved@)
}

/// `region` is a slot for the guest memory of the section, backed by a file from its start on.
pub open spec fn is_slot_for(region: KvmUserspaceMemoryRegion2, section: TdxFirmwareEntry) -> bool {
    &&& region.flags == KVM_MEM_GUEST_MEMFD
    &&& region.guest_phys_addr == section.memory_address
    &&& region.memory_size == section.memory_data_size
    &&& region.guest_memfd_offset == 0
    &&& region.pad1 == 0
    &&& all_zero(region.pad2@)
}

/// `attr` makes the guest memory of the section private, and sets nothing else.
pub open spec fn makes_private(attr: KvmMemoryAttributes, section: TdxFirmwareEntry) -> bool {
    &&& attr.address == section.memory_address
    &&& attr.size == section.memory_data_size
    &&& attr.attributes == KVM_MEMORY_ATTRIBUTE_PRIVATE
    &&& attr.flags == 0
}

/// Creates a file of guest memory as large as the section.
pub fn create_guest_memfd(section: &TdxFirmwareEntry) -> (r: Ioctl<KvmCreateGuestMemfd>)
    ensures
        r.request == kvm_request(IOC_READ_WRITE as int, 0xd4, 64),
        is_file_for(r.arg, *section),
{
    let gmem = KvmCreateGuestMemfd {
        size: section.memory_data_size,
        flags: 0,
        reserved: [0; 6],
    };
    linux_ioctls::create_guest_memfd(gmem)
}

/// Maps the section into the guest as memory slot `slot`: its shared pages are those at
/// `userspace_address`, its private pages those of the file `guest_memfd`, which is what
/// [`create_guest_memfd`] returned for the section, an error number included.
pub fn set_user_memory_region2(
    slot: u32,
    userspace_address: u64,
    section: &TdxFirmwareEntry,
    guest_memfd: i32,
) -> (r: Ioctl<KvmUserspaceMemoryRegion2>)
    ensures
        r.request == kvm_request(IOC_WRITE as int, 0x49, 160),
        is_slot_for(r.arg, *section),
        r.arg.slot == slot,
        r.arg.userspace_addr == userspace_address,
        r.arg.guest_memfd == fd_word(guest_memfd),
{
    assert(guest_memfd as u32 == if guest_memfd >= 0 {
        guest_memfd as int
    } else {
        guest_memfd + 0x1_0000_0000
    }) by (bit_vector);
    let mem_region = KvmUserspaceMemoryRegion2 {
        slot,
        flags: KVM_MEM_GUEST_MEMFD,
        guest_phys_addr: section.memory_address,
        memory_size: section.memory_data_size,
        userspace_addr: userspace_address,
        guest_memfd_offset: 0,
        guest_memfd: #[verifier::truncate] (guest_memfd as u32),
        pad1: 0,
        pad2: [0; 14],
    };
    linux_ioctls::set_user_memory_region2(mem_region)
}

/// Makes the guest memory of the section private.
pub fn set_memory_attributes(section: &TdxFirmwareEntry) -> (r: Ioctl<KvmMemoryAttributes>)
    ensures
        r.request == kvm_request(IOC_WRITE as int, 0xd2, 32),
        makes_private(r.arg, *section),
{
    let attr = KvmMemoryAttributes {
        address: section.memory_address,
        size: section.memory_data_size,
        attributes: KVM_MEMORY_ATTRIBUTE_PRIVATE,
        flags: 0,
    };
    linux_ioctls::set_memory_attributes(attr)
}

/// The file, the slot and the attributes of a section are about the same guest memory: the slot is
/// as large as the file that backs it, and all of it is made private.
pub proof fn law_file_slot_and_attributes_agree(
    section: TdxFirmwareEntry,
    gmem: KvmCreateGuestMemfd,
    region: KvmUserspaceMemoryRegion2,
    attr: KvmMemoryAttributes,
)
    requires
        is_file_for(gmem, section),
        is_slot_for(region, section),
        makes_private(attr, section),
    ensures
        region.guest_memfd_offset + region.memory_size == gmem.size,
        attr.address == region.guest_phys_addr,
        attr.size == region.memory_size,
{
}

} // verus!
