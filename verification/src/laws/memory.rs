//! Laws of guest memory: the ioctls that set it up, and the mapping of guest RAM.

use vstd::prelude::*;

use crate::guest_memory::{
    create_guest_memfd, set_memory_attributes, set_user_memory_region2, KvmCreateGuestMemfd,
    KvmMemoryAttributes, KvmUserspaceMemoryRegion2,
};
use crate::ioctl::{
    check_extension, extension_is_present, kvm_check_extension, kvm_create_guest_memfd,
    kvm_memory_encrypt_op, kvm_memory_mapping, kvm_set_memory_attributes,
    kvm_set_user_memory_region2, Ioctl,
};
use crate::linux_ioctls;
use crate::mmap::{
    mmap_activate, mmap_reserve, ram_mmap, MmapRequest, RamAction, RamEvent, RamMmap, RamPhase,
};
use crate::tdvf::TdxFirmwareEntry;

verus! {

/// The request numbers of the ioctls.
pub proof fn law_request_numbers(
    check_extension: u64,
    memory_encrypt_op: u64,
    create_guest_memfd: u64,
    set_user_memory_region2: u64,
    set_memory_attributes: u64,
    memory_mapping: u64,
)
    requires
        call_ensures(kvm_check_extension, (), check_extension),
        call_ensures(kvm_memory_encrypt_op, (), memory_encrypt_op),
        call_ensures(kvm_create_guest_memfd, (), create_guest_memfd),
        call_ensures(kvm_set_user_memory_region2, (), set_user_memory_region2),
        call_ensures(kvm_set_memory_attributes, (), set_memory_attributes),
        call_ensures(kvm_memory_mapping, (), memory_mapping),
    ensures
        check_extension == 0xae03,
        memory_encrypt_op == 0xc008_aeba,
        create_guest_memfd == 0xc040_aed4,
        set_user_memory_region2 == 0x40a0_ae49,
        set_memory_attributes == 0x4020_aed2,
        memory_mapping == 0xc020_aed5,
{
}

/// An extension is asked for by its number, and is there if and only if the answer is positive.
pub proof fn law_extension_is_asked_for(number: u32, request: Ioctl<u64>, ret: i32, present: bool)
    requires
        call_ensures(check_extension, (number,), request),
        call_ensures(extension_is_present, (ret,), present),
    ensures
        request.request == 0xae03,
        request.arg == number,
        present <==> ret > 0,
{
}

/// The bare ioctls pass their argument on as it is.
pub proof fn law_arguments_are_passed_on(
    gmem: KvmCreateGuestMemfd,
    file: Ioctl<KvmCreateGuestMemfd>,
    mem_region: KvmUserspaceMemoryRegion2,
    slot: Ioctl<KvmUserspaceMemoryRegion2>,
    attr: KvmMemoryAttributes,
    attributes: Ioctl<KvmMemoryAttributes>,
)
    requires
        call_ensures(linux_ioctls::create_guest_memfd, (gmem,), file),
        call_ensures(linux_ioctls::set_user_memory_region2, (mem_region,), slot),
        call_ensures(linux_ioctls::set_memory_attributes, (attr,), attributes),
    ensures
        file == (Ioctl { request: 0xc040_aed4, arg: gmem }),
        slot == (Ioctl { request: 0x40a0_ae49, arg: mem_region }),
        attributes == (Ioctl { request: 0x4020_aed2, arg: attr }),
{
}

/// A call took effect if and only if it returned zero.
pub proof fn law_zero_is_success(ret: i32, effective: bool)
    requires
        call_ensures(linux_ioctls::took_effect, (ret,), effective),
    ensures
        effective <==> ret == 0,
{
}

/// The file of a section is as large as the section, and nothing else is asked of it.
pub proof fn law_file_of_a_section(section: &TdxFirmwareEntry, r: Ioctl<KvmCreateGuestMemfd>)
    requires
        call_ensures(create_guest_memfd, (section,), r),
    ensures
        r.request == 0xc040_aed4,
        r.arg.size == section.memory_data_size,
        r.arg.flags == 0,
        forall|i: int| 0 <= i < 6 ==> #[trigger] r.arg.reserved@[i] == 0,
{
    assert(r.arg.reserved@.len() == 6);
}

/// The slot of a section is the one asked for. It lies at the guest address of the section and is
/// as large as it. Its shared pages are those at the given address, and its private ones those of
/// the given file from its start on. It has the flag of memory that a file backs, and no other.
pub proof fn law_slot_of_a_section(
    slot: u32,
    userspace_address: u64,
    section: &TdxFirmwareEntry,
    guest_memfd: i32,
    r: Ioctl<KvmUserspaceMemoryRegion2>,
)
    requires
        call_ensures(
            set_user_memory_region2,
            (slot, userspace_address, section, guest_memfd),
            r,
        ),
    ensures
        r.request == 0x40a0_ae49,
        r.arg.slot == slot,
        r.arg.flags == 4,
        r.arg.guest_phys_addr == section.memory_address,
        r.arg.memory_size == section.memory_data_size,
        r.arg.userspace_addr == userspace_address,
        r.arg.guest_memfd_offset == 0,
        guest_memfd >= 0 ==> r.arg.guest_memfd == guest_memfd,
        guest_memfd < 0 ==> r.arg.guest_memfd == guest_memfd + 0x1_0000_0000,
        r.arg.pad1 == 0,
        forall|i: int| 0 <= i < 14 ==> #[trigger] r.arg.pad2@[i] == 0,
{
    assert((1u32 << 2) == 4) by (bit_vector);
    assert(r.arg.pad2@.len() == 14);
}

/// All of a section is made private, whatever the section is: of its description only the address
/// and the size count.
pub proof fn law_attributes_of_a_section(section: &TdxFirmwareEntry, r: Ioctl<KvmMemoryAttributes>)
    requires
        call_ensures(set_memory_attributes, (section,), r),
    ensures
        r.request == 0x4020_aed2,
        r.arg.address == section.memory_address,
        r.arg.size == section.memory_data_size,
        r.arg.attributes == 8,
        r.arg.flags == 0,
{
    assert((1u64 << 3) == 8) by (bit_vector);
}

/// Two sections with the same address and size are made private by the same call.
pub proof fn law_equal_ranges_are_made_private_alike(
    section: &TdxFirmwareEntry,
    other: &TdxFirmwareEntry,
    r: Ioctl<KvmMemoryAttributes>,
    other_r: Ioctl<KvmMemoryAttributes>,
)
    requires
        section.memory_address == other.memory_address,
        section.memory_data_size == other.memory_data_size,
        call_ensures(set_memory_attributes, (section,), r),
        call_ensures(set_memory_attributes, (other,), other_r),
    ensures
        r == other_r,
{
}

/// A reservation is as long as asked for, anywhere, private and anonymous, and cannot be accessed.
pub proof fn law_reservation(size: usize, fd: i32, r: MmapRequest)
    requires
        call_ensures(mmap_reserve, (size, fd), r),
    ensures
        r == (MmapRequest { addr: 0, length: size, prot: 0, flags: 0x22, fd, offset: 0 }),
{
    assert((0x02i32 | 0x20i32) == 0x22) by (bit_vector);
}

/// An activation is of the given bytes of the given file, at the given address and nowhere else.
/// The bits of `map_flags` are, from bit 0 on: read-only, shared, persistent, no swap space. The
/// flags of the call are 0x10 (in place), 0x20 (anonymous, without a file), 2, 1 or 3 (private,
/// shared, or shared with its flags checked), 0x4000 (no swap space) and 0x8_0000 (persistent),
/// and there are no others.
pub proof fn law_activation(
    ptr: usize,
    size: usize,
    fd: i32,
    map_flags: u32,
    map_offset: i64,
    r: MmapRequest,
)
    requires
        call_ensures(mmap_activate, (ptr, size, fd, map_flags, map_offset), r),
    ensures
        r.addr == ptr,
        r.length == size,
        r.fd == fd,
        r.offset == map_offset,
        r.prot == if map_flags % 2 == 1 {
            1int
        } else {
            3
        },
        r.flags == 0x10 + (if fd as int == -1 {
            0x20int
        } else {
            0
        }) + (if map_flags / 2 % 2 == 0 {
            2int
        } else if map_flags / 4 % 2 == 0 {
            1
        } else {
            3
        }) + (if map_flags / 8 % 2 == 1 {
            0x4000int
        } else {
            0
        }) + (if map_flags / 2 % 2 == 1 && map_flags / 4 % 2 == 1 {
            0x8_0000int
        } else {
            0
        }),
{
    assert({
        &&& (map_flags & (1u32 << 0) != 0) == (map_flags % 2 == 1)
        &&& (map_flags & (1u32 << 1) != 0) == (map_flags / 2 % 2 == 1)
        &&& (map_flags & (1u32 << 2) != 0) == (map_flags / 4 % 2 == 1)
        &&& (map_flags & (1u32 << 3) != 0) == (map_flags / 8 % 2 == 1)
        &&& 1i32 | 0i32 == 1
        &&& 1i32 | 2i32 == 3
        &&& 0x8_0000i32 | 0x03i32 == 0x8_0003
    }) by (bit_vector);
    let backing: i32 = if fd as int == -1 {
        0x20
    } else {
        0
    };
    let sharing: i32 = if map_flags / 2 % 2 == 1 {
        1
    } else {
        2
    };
    let swap: i32 = if map_flags / 8 % 2 == 1 {
        0x4000
    } else {
        0
    };
    let sync: i32 = if map_flags / 2 % 2 == 1 && map_flags / 4 % 2 == 1 {
        0x8_0003
    } else {
        0
    };
    assert(r.flags == 0x10i32 | backing | sharing | swap | sync);
    assert({
        &&& sync == 0 ==> (0x10i32 | backing | sharing | swap | sync) == 0x10 + backing + sharing
            + swap
        &&& sync != 0 ==> (0x10i32 | backing | sharing | swap | sync) == 0x10 + backing + swap
            + 0x8_0003
    }) by (bit_vector)
        requires
            backing == 0 || backing == 0x20,
            sharing == 1 || sharing == 2,
            swap == 0 || swap == 0x4000,
            sync == 0 || sync == 0x8_0003 && sharing == 1,
    ;
}

/// RAM starts on a page boundary, the guard is a page, and the address that stands for failure is
/// the highest there is.
pub proof fn law_page_and_failure()
    ensures
        crate::mmap::ALIGN == 4096,
        crate::mmap::GUARD_PAGE_SIZE == 4096,
        crate::mmap::MAP_FAILED == usize::MAX,
        crate::mmap::NO_FD as int == -1,
{
}

/// Guest RAM can be asked for wherever it fits in the address space with a page, and starts by
/// being reserved, whatever its size and its file.
pub proof fn law_ram_starts_by_being_reserved(size: u64, fd: i32, ram: RamMmap, action: RamAction)
    requires
        size + 4096 <= usize::MAX,
        call_ensures(ram_mmap, (size, fd), ram),
        call_ensures(RamMmap::action, (&ram,), action),
    ensures
        call_requires(ram_mmap, (size, fd)),
        call_requires(RamMmap::action, (&ram,)),
        ram == (RamMmap { size, fd, phase: RamPhase::Reserving }),
        action is Mmap,
        action->Mmap_0.addr == 0,
        action->Mmap_0.length == size + 4096,
        action->Mmap_0.prot == 0,
        action->Mmap_0.flags == 0x22,
        action->Mmap_0.fd as int == -1,
        action->Mmap_0.offset == 0,
{
    assert((0x02i32 | 0x20i32) == 0x22) by (bit_vector);
}

/// What the mapping of guest RAM asks for in each phase. The reservation is a page longer than the
/// RAM. The RAM starts on the first page boundary in it, can be read and written, and is of the
/// given file from its start on. What is given back is the whole reservation or what lies in front
/// of the RAM. At the end there is the address to return, or none.
pub proof fn law_ram_asks_for_its_phase(ram: RamMmap, action: RamAction)
    requires
        ram.size + 4096 <= usize::MAX,
        ram.phase matches RamPhase::Activating { guard_addr } ==> guard_addr + 4096 <= usize::MAX,
        ram.phase matches RamPhase::TrimmingHead { guard_addr, .. } ==> guard_addr + 4096
            <= usize::MAX,
        call_ensures(RamMmap::action, (&ram,), action),
    ensures
        call_requires(RamMmap::action, (&ram,)),
        ram.phase is Reserving ==> {
            &&& action is Mmap
            &&& action->Mmap_0.addr == 0
            &&& action->Mmap_0.length == ram.size + 4096
            &&& action->Mmap_0.prot == 0
            &&& action->Mmap_0.flags == 0x22
            &&& action->Mmap_0.fd as int == -1
            &&& action->Mmap_0.offset == 0
        },
        ram.phase matches RamPhase::Activating { guard_addr } ==> {
            &&& action is Mmap
            &&& action->Mmap_0.addr as int % 4096 == 0
            &&& guard_addr <= action->Mmap_0.addr < guard_addr + 4096
            &&& action->Mmap_0.length == ram.size
            &&& action->Mmap_0.prot == 3
            &&& action->Mmap_0.flags == if ram.fd as int == -1 {
                0x32int
            } else {
                0x12
            }
            &&& action->Mmap_0.fd == ram.fd
            &&& action->Mmap_0.offset == 0
        },
        ram.phase matches RamPhase::Unreserving { guard_addr } ==> {
            &&& action is Munmap
            &&& action->addr == guard_addr
            &&& action->length == ram.size + 4096
        },
        ram.phase matches RamPhase::TrimmingHead { guard_addr, .. } ==> {
            &&& action is Munmap
            &&& action->addr == guard_addr
            &&& action->length < 4096
            &&& (guard_addr + action->length) % 4096 == 0
        },
        ram.phase matches RamPhase::Mapped { addr } ==> action is Return && action->Return_0
            == addr,
        ram.phase is Failed ==> action is Panic,
{
    assert({
        &&& 0x02i32 | 0x20i32 == 0x22
        &&& 0u32 & (1u32 << 0) == 0
        &&& 0u32 & (1u32 << 1) == 0
        &&& 0u32 & (1u32 << 2) == 0
        &&& 0u32 & (1u32 << 3) == 0
        &&& 1i32 | 2i32 == 3
        &&& 0x10i32 | 0x20i32 | 0x02i32 | 0i32 | 0i32 == 0x32
        &&& 0x10i32 | 0i32 | 0x02i32 | 0i32 | 0i32 == 0x12
    }) by (bit_vector);
}

/// What each event makes of the mapping of guest RAM. A failed reservation ends it without RAM. A
/// failed activation leads to giving the reservation back, and then to an end without RAM. After a
/// successful one, what lies in front of the RAM is given back if there is anything, and the
/// address that the activation returned is what is returned. The size and the file stay the same.
pub proof fn law_event_moves_ram_on(ram: &mut RamMmap, event: RamEvent)
    requires
        old(ram).size + 4096 <= usize::MAX,
        old(ram).phase matches RamPhase::Activating { guard_addr } ==> guard_addr + 4096
            <= usize::MAX,
        old(ram).phase matches RamPhase::TrimmingHead { guard_addr, .. } ==> guard_addr + 4096
            <= usize::MAX,
        !(old(ram).phase is Mapped) && !(old(ram).phase is Failed),
        old(ram).phase is Reserving || old(ram).phase is Activating <==> event is MapReturned,
        old(ram).phase is Reserving ==> (event matches RamEvent::MapReturned(addr) ==> addr
            == usize::MAX || addr + 4096 <= usize::MAX),
        call_ensures(RamMmap::step, (ram, event), ()),
    ensures
        call_requires(RamMmap::step, (ram, event)),
        final(ram).size == old(ram).size,
        final(ram).fd == old(ram).fd,
        old(ram).phase is Reserving ==> (event matches RamEvent::MapReturned(addr) ==> {
            if addr == usize::MAX {
                final(ram).phase is Failed
            } else {
                final(ram).phase == (RamPhase::Activating { guard_addr: addr })
            }
        }),
        old(ram).phase matches RamPhase::Activating { guard_addr } ==> (
        event matches RamEvent::MapReturned(addr) ==> {
            if addr == usize::MAX {
                final(ram).phase == (RamPhase::Unreserving { guard_addr })
            } else if guard_addr as int % 4096 != 0 {
                final(ram).phase == (RamPhase::TrimmingHead { guard_addr, addr })
            } else {
                final(ram).phase == (RamPhase::Mapped { addr })
            }
        }),
        old(ram).phase is Unreserving ==> final(ram).phase is Failed,
        old(ram).phase matches RamPhase::TrimmingHead { addr, .. } ==> final(ram).phase == (
        RamPhase::Mapped { addr }),
{
}

/// The RAM that is activated lies inside what was reserved, with at least a byte left behind it as
/// a guard, and a whole page where the reservation starts on a page boundary. It is as long as
/// asked for. What is given back in front of it ends where it starts, and what is given back after
/// a failure is all that was reserved.
pub proof fn law_ram_lies_inside_its_reservation(
    size: u64,
    fd: i32,
    guard_addr: usize,
    addr: usize,
    reserve: RamAction,
    activate: RamAction,
    trim: RamAction,
    unreserve: RamAction,
)
    requires
        size + 4096 <= usize::MAX,
        guard_addr + 4096 <= usize::MAX,
        call_ensures(
            RamMmap::action,
            (&RamMmap { size, fd, phase: RamPhase::Reserving },),
            reserve,
        ),
        call_ensures(
            RamMmap::action,
            (&RamMmap { size, fd, phase: RamPhase::Activating { guard_addr } },),
            activate,
        ),
        call_ensures(
            RamMmap::action,
            (&RamMmap { size, fd, phase: RamPhase::TrimmingHead { guard_addr, addr } },),
            trim,
        ),
        call_ensures(
            RamMmap::action,
            (&RamMmap { size, fd, phase: RamPhase::Unreserving { guard_addr } },),
            unreserve,
        ),
    ensures
        reserve is Mmap,
        activate is Mmap,
        trim is Munmap,
        unreserve is Munmap,
        ({
            let start = activate->Mmap_0.addr;
            let end = start + activate->Mmap_0.length;
            let guard_end = guard_addr + reserve->Mmap_0.length;
            &&& activate->Mmap_0.length == size
            &&& guard_addr <= start
            &&& end < guard_end
            &&& guard_addr as int % 4096 == 0 ==> start == guard_addr && guard_end - end == 4096
            &&& trim->addr == guard_addr
            &&& trim->addr + trim->length == start
            &&& unreserve->addr == guard_addr
            &&& unreserve->length == reserve->Mmap_0.length
        }),
{
}

} // verus!
