use tdx_launch::guest_memory::{
    create_guest_memfd, set_memory_attributes, set_user_memory_region2, KvmCreateGuestMemfd,
    KvmMemoryAttributes, KvmUserspaceMemoryRegion2,
};
use tdx_launch::ioctl::{
    check_extension, extension_is_present, kvm_memory_encrypt_op, kvm_memory_mapping, IOC_NONE,
    IOC_READ_WRITE, IOC_WRITE, KVMIO,
};
use tdx_launch::linux_ioctls;
use tdx_launch::mmap::{
    mmap_activate, mmap_reserve, ram_mmap, MmapRequest, RamAction, RamEvent, ACTIVATE_NORESERVE,
    ACTIVATE_READONLY, ACTIVATE_SHARED, ACTIVATE_SYNC, MAP_ANONYMOUS, MAP_FAILED, MAP_FIXED,
    MAP_NORESERVE, MAP_PRIVATE, MAP_SHARED, MAP_SHARED_VALIDATE, MAP_SYNC, PROT_NONE, PROT_READ,
    PROT_WRITE,
};
use tdx_launch::tdvf::TdxFirmwareEntry;

fn section() -> TdxFirmwareEntry {
    TdxFirmwareEntry {
        memory_address: 0xffc0_0000,
        memory_data_size: 0x40_0000,
        attributes: 1,
        mem_ptr: 0x7f00_0000_0000,
    }
}

#[test]
fn constants_are_those_of_the_platform() {
    assert_eq!(KVMIO, kvm_bindings::KVMIO);
    assert_eq!(IOC_NONE, vmm_sys_util::ioctl::_IOC_NONE);
    assert_eq!(IOC_WRITE, vmm_sys_util::ioctl::_IOC_WRITE);
    assert_eq!(
        IOC_READ_WRITE,
        vmm_sys_util::ioctl::_IOC_READ | vmm_sys_util::ioctl::_IOC_WRITE
    );
    assert_eq!(PROT_NONE, libc::PROT_NONE);
    assert_eq!(PROT_READ, libc::PROT_READ);
    assert_eq!(PROT_WRITE, libc::PROT_WRITE);
    assert_eq!(MAP_SHARED, libc::MAP_SHARED);
    assert_eq!(MAP_PRIVATE, libc::MAP_PRIVATE);
    assert_eq!(MAP_SHARED_VALIDATE, libc::MAP_SHARED_VALIDATE);
    assert_eq!(MAP_FIXED, libc::MAP_FIXED);
    assert_eq!(MAP_ANONYMOUS, libc::MAP_ANONYMOUS);
    assert_eq!(MAP_NORESERVE, libc::MAP_NORESERVE);
    assert_eq!(MAP_SYNC, libc::MAP_SYNC);
    assert_eq!(MAP_FAILED, libc::MAP_FAILED as usize);
}

#[test]
fn ioctl_numbers() {
    assert_eq!(check_extension(236).request, 0xae03);
    assert_eq!(kvm_memory_encrypt_op(), 0xc008_aeba);
    assert_eq!(kvm_memory_mapping(), 0xc020_aed5);
    assert_eq!(create_guest_memfd(&section()).request, 0xc040_aed4);
    assert_eq!(set_user_memory_region2(0, 0, &section(), 0).request, 0x40a0_ae49);
    assert_eq!(set_memory_attributes(&section()).request, 0x4020_aed2);
}

#[test]
fn extensions() {
    assert_eq!(check_extension(236).arg, 236);
    assert!(extension_is_present(1));
    assert!(extension_is_present(5));
    assert!(!extension_is_present(0));
    assert!(!extension_is_present(-1));
}

#[test]
fn guest_memory_file() {
    let gmem = KvmCreateGuestMemfd { size: 0x40_0000, flags: 0, reserved: [0; 6] };
    assert_eq!(create_guest_memfd(&section()).arg, gmem);
    assert_eq!(linux_ioctls::create_guest_memfd(gmem), create_guest_memfd(&section()));
}

#[test]
fn guest_memory_slot() {
    let region = KvmUserspaceMemoryRegion2 {
        slot: 3,
        flags: 4,
        guest_phys_addr: 0xffc0_0000,
        memory_size: 0x40_0000,
        userspace_addr: 0x7f12_3000,
        guest_memfd_offset: 0,
        guest_memfd: 17,
        pad1: 0,
        pad2: [0; 14],
    };
    let call = set_user_memory_region2(3, 0x7f12_3000, &section(), 17);
    assert_eq!(call.arg, region);
    assert_eq!(linux_ioctls::set_user_memory_region2(region), call);
    let failed = set_user_memory_region2(3, 0x7f12_3000, &section(), -1);
    assert_eq!(failed.arg.guest_memfd, 0xffff_ffff);
}

#[test]
fn guest_memory_is_private() {
    let attr = KvmMemoryAttributes {
        address: 0xffc0_0000,
        size: 0x40_0000,
        attributes: 8,
        flags: 0,
    };
    assert_eq!(set_memory_attributes(&section()).arg, attr);
    assert_eq!(linux_ioctls::set_memory_attributes(attr), set_memory_attributes(&section()));
    assert!(linux_ioctls::took_effect(0));
    assert!(!linux_ioctls::took_effect(-1));
    assert!(!linux_ioctls::took_effect(1));
}

#[test]
fn file_slot_and_attributes_cover_the_same_memory() {
    let gmem = create_guest_memfd(&section()).arg;
    let region = set_user_memory_region2(1, 0, &section(), 5).arg;
    let attr = set_memory_attributes(&section()).arg;
    assert_eq!(gmem.size, region.memory_size);
    assert_eq!(attr.size, region.memory_size);
    assert_eq!(attr.address, region.guest_phys_addr);
}

#[test]
fn reservation() {
    assert_eq!(
        mmap_reserve(0x3000, -1),
        MmapRequest {
            addr: 0,
            length: 0x3000,
            prot: libc::PROT_NONE,
            flags: libc::MAP_PRIVATE | libc::MAP_ANONYMOUS,
            fd: -1,
            offset: 0,
        }
    );
}

#[test]
fn activation_of_anonymous_memory() {
    assert_eq!(
        mmap_activate(0x5000, 0x2000, -1, 0, 0),
        MmapRequest {
            addr: 0x5000,
            length: 0x2000,
            prot: libc::PROT_READ | libc::PROT_WRITE,
            flags: libc::MAP_FIXED | libc::MAP_ANONYMOUS | libc::MAP_PRIVATE,
            fd: -1,
            offset: 0,
        }
    );
}

#[test]
fn activation_flags() {
    let all = ACTIVATE_READONLY | ACTIVATE_SHARED | ACTIVATE_SYNC | ACTIVATE_NORESERVE;
    let request = mmap_activate(0x5000, 0x2000, 6, all, 0x1000);
    assert_eq!(request.prot, libc::PROT_READ);
    assert_eq!(
        request.flags,
        libc::MAP_FIXED
            | libc::MAP_SHARED
            | libc::MAP_NORESERVE
            | libc::MAP_SYNC
            | libc::MAP_SHARED_VALIDATE
    );
    assert_eq!(request.fd, 6);
    assert_eq!(request.offset, 0x1000);
    assert_eq!(
        mmap_activate(0, 1, 6, ACTIVATE_SYNC, 0).flags,
        libc::MAP_FIXED | libc::MAP_PRIVATE
    );
    assert_eq!(
        mmap_activate(0, 1, 6, ACTIVATE_SHARED, 0).flags,
        libc::MAP_FIXED | libc::MAP_SHARED
    );
    assert_eq!(mmap_activate(0, 1, 6, 0xf0, 0), mmap_activate(0, 1, 6, 0, 0));
}

#[test]
fn ram_in_an_aligned_reservation() {
    let mut ram = ram_mmap(0x8000, -1);
    assert_eq!(ram.action(), RamAction::Mmap(mmap_reserve(0x9000, -1)));
    ram.step(RamEvent::MapReturned(0x10_0000));
    assert_eq!(ram.action(), RamAction::Mmap(mmap_activate(0x10_0000, 0x8000, -1, 0, 0)));
    ram.step(RamEvent::MapReturned(0x10_0000));
    assert_eq!(ram.action(), RamAction::Return(0x10_0000));
}

#[test]
fn ram_in_an_unaligned_reservation() {
    let mut ram = ram_mmap(0x8000, 4);
    ram.step(RamEvent::MapReturned(0x10_0010));
    assert_eq!(ram.action(), RamAction::Mmap(mmap_activate(0x10_1000, 0x8000, 4, 0, 0)));
    ram.step(RamEvent::MapReturned(0x10_1000));
    assert_eq!(ram.action(), RamAction::Munmap { addr: 0x10_0010, length: 0xff0 });
    ram.step(RamEvent::UnmapReturned);
    assert_eq!(ram.action(), RamAction::Return(0x10_1000));
}

#[test]
fn ram_that_cannot_be_reserved() {
    let mut ram = ram_mmap(0x8000, -1);
    ram.step(RamEvent::MapReturned(MAP_FAILED));
    assert_eq!(ram.action(), RamAction::Panic);
}

#[test]
fn ram_that_cannot_be_activated() {
    let mut ram = ram_mmap(0x8000, -1);
    ram.step(RamEvent::MapReturned(0x10_0000));
    ram.step(RamEvent::MapReturned(MAP_FAILED));
    assert_eq!(ram.action(), RamAction::Munmap { addr: 0x10_0000, length: 0x9000 });
    ram.step(RamEvent::UnmapReturned);
    assert_eq!(ram.action(), RamAction::Panic);
}
