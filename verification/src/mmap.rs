//! Mapping memory of the host for use as guest RAM.
//!
//! RAM is mapped in two calls. The first reserves an address range that nothing can access. The
//! second makes the aligned part of the range accessible. What the alignment leaves in front is
//! given back, and what remains behind guards the RAM against overruns.

use vstd::prelude::*;

use crate::align::{align_up, is_multiple, rounded_up};

verus! {

pub const PROT_NONE: i32 = 0;

pub const PROT_READ: i32 = 1;

pub const PROT_WRITE: i32 = 2;

pub const MAP_SHARED: i32 = 0x01;

pub const MAP_PRIVATE: i32 = 0x02;

pub const MAP_SHARED_VALIDATE: i32 = 0x03;

pub const MAP_FIXED: i32 = 0x10;

pub const MAP_ANONYMOUS: i32 = 0x20;

pub const MAP_NORESERVE: i32 = 0x4000;

pub const MAP_SYNC: i32 = 0x80000;

/// The address that `mmap` returns if it fails: the highest there is.
pub const MAP_FAILED: usize = usize::MAX;

/// What stands for the file descriptor of memory that no file backs.
pub const NO_FD: i32 = -1;

/// The flag of [`mmap_activate`] for memory that can only be read.
pub const ACTIVATE_READONLY: u32 = 1 << 0;

/// The flag of [`mmap_activate`] for memory that is shared with other mappings.
pub const ACTIVATE_SHARED: u32 = 1 << 1;

/// The flag of [`mmap_activate`] for memory whose writes are persistent. It counts for shared
/// memory only.
pub const ACTIVATE_SYNC: u32 = 1 << 2;

/// The flag of [`mmap_activate`] for memory that no swap space is set aside for.
pub const ACTIVATE_NORESERVE: u32 = 1 << 3;

/// The alignment of guest RAM.
pub const ALIGN: u64 = 4096;

/// The size of the guard behind guest RAM.
pub const GUARD_PAGE_SIZE: u64 = 4096;

/// The arguments of a call of `mmap`.
#[derive(Clone, Copy, Debug, PartialEq, Eq)]
pub struct MmapRequest {
    pub addr: usize,
    pub length: usize,
    pub prot: i32,
    pub flags: i32,
    pub fd: i32,
    pub offset: i64,
}

/// The call that reserves `size` bytes anywhere.
pub open spec fn reserve_request(size: usize, fd: i32) -> MmapRequest {
    MmapRequest {
        addr: 0,
        length: size,
        prot: PROT_NONE,
        flags: MAP_PRIVATE | MAP_ANONYMOUS,
        fd,
        offset: 0,
    }
}

/// Whether `flag` is among `map_flags`.
pub open spec fn is_set(map_flags: u32, flag: u32) -> bool {
    map_flags & flag != 0
}

/// The protection of activated memory: it can be read, and written unless it is read-only.
pub open spec fn activate_prot(map_flags: u32) -> i32 {
    PROT_READ | if is_set(map_flags, ACTIVATE_READONLY) {
        0
    } else {
        PROT_WRITE
    }
}

/// The flags of the call that activates memory. Memory of no file is anonymous.
pub open spec fn activate_flags(fd: i32, map_flags: u32) -> i32 {
    let backing = if fd == NO_FD {
        MAP_ANONYMOUS
    } else {
        0
    };
    let sharing = if is_set(map_flags, ACTIVATE_SHARED) {
        MAP_SHARED
    } else {
        MAP_PRIVATE
    };
    let swap = if is_set(map_flags, ACTIVATE_NORESERVE) {
        MAP_NORESERVE
    } else {
        0
    };
    let sync = if is_set(map_flags, ACTIVATE_SHARED) && is_set(map_flags, ACTIVATE_SYNC) {
        MAP_SYNC | MAP_SHARED_VALIDATE
    } else {
        0
    };
    MAP_FIXED | backing | sharing | swap | sync
}

/// Reserve a new memory region of the requested size to be used for maping from the given fd (if
/// any)
pub fn mmap_reserve(size: usize, fd: i32) -> (r: MmapRequest)
    ensures
        r == reserve_request(size, fd),
{
    let mut flags: i32 = MAP_PRIVATE;
    flags |= MAP_ANONYMOUS;
    MmapRequest { addr: 0, length: size, prot: PROT_NONE, flags, fd, offset: 0 }
}

/// Activate memory in a reserved region from the given fd (if any), to make it accessible.
pub fn mmap_activate(ptr: usize, size: usize, fd: i32, map_flags: u32, map_offset: i64) -> (r:
    MmapRequest)
    ensures
        r == (MmapRequest {
            addr: ptr,
            length: size,
            prot: activate_prot(map_flags),
            flags: activate_flags(fd, map_flags),
            fd,
            offset: map_offset,
        }),
{
    let noreserve: u32 = map_flags & ACTIVATE_NORESERVE;
    let readonly: u32 = map_flags & ACTIVATE_READONLY;
    let shared: u32 = map_flags & ACTIVATE_SHARED;
    let sync: u32 = map_flags & ACTIVATE_SYNC;
    assert(map_flags & (1u32 << 0) == 0 || map_flags & (1u32 << 0) == 1) by (bit_vector);
    let prot: i32 = PROT_READ | (if readonly == 1 {
        0
    } else {
        PROT_WRITE
    });
    let mut map_synced_flags: i32 = 0;
    let mut flags: i32 = MAP_FIXED;

    flags |= if fd == NO_FD {
        MAP_ANONYMOUS
    } else {
        0
    };
    flags |= if shared >= 1 {
        MAP_SHARED
    } else {
        MAP_PRIVATE
    };
    flags |= if noreserve >= 1 {
        MAP_NORESERVE
    } else {
        0
    };

    if shared >= 1 && sync >= 1 {
        map_synced_flags = MAP_SYNC | MAP_SHARED_VALIDATE;
    }
    MmapRequest {
        addr: ptr,
        length: size,
        prot,
        flags: flags | map_synced_flags,
        fd,
        offset: map_offset,
    }
}

/// A mapping cannot be both shared and private, and is one of them; it is fixed in place; and what
/// else it is follows from the file and the flags one by one.
pub proof fn law_activation_flags(fd: i32, map_flags: u32)
    ensures
        ({
            let flags = activate_flags(fd, map_flags);
            let shared = is_set(map_flags, ACTIVATE_SHARED);
            &&& flags & MAP_FIXED != 0
            &&& (flags & MAP_ANONYMOUS != 0) == (fd == NO_FD)
            &&& (flags & MAP_SHARED != 0) == shared
            &&& !shared ==> flags & MAP_SHARED_VALIDATE == MAP_PRIVATE
            &&& (flags & MAP_NORESERVE != 0) == is_set(map_flags, ACTIVATE_NORESERVE)
            &&& (flags & MAP_SYNC != 0) == (shared && is_set(map_flags, ACTIVATE_SYNC))
        }),
        activate_prot(map_flags) & PROT_READ != 0,
        (activate_prot(map_flags) & PROT_WRITE != 0) == !is_set(map_flags, ACTIVATE_READONLY),
{
    let backing = if fd == NO_FD {
        MAP_ANONYMOUS
    } else {
        0
    };
    let sharing = if is_set(map_flags, ACTIVATE_SHARED) {
        MAP_SHARED
    } else {
        MAP_PRIVATE
    };
    let swap = if is_set(map_flags, ACTIVATE_NORESERVE) {
        MAP_NORESERVE
    } else {
        0
    };
    let sync = if is_set(map_flags, ACTIVATE_SHARED) && is_set(map_flags, ACTIVATE_SYNC) {
        MAP_SYNC | MAP_SHARED_VALIDATE
    } else {
        0
    };
    let flags = 0x10i32 | backing | sharing | swap | sync;
    assert(0x80000i32 | 0x03 == 0x80003) by (bit_vector);
    assert({
        &&& flags & 0x10 != 0
        &&& (flags & 0x20 != 0) == (backing == 0x20)
        &&& (flags & 0x01 != 0) == (sharing == 0x01)
        &&& (flags & 0x4000 != 0) == (swap == 0x4000)
        &&& (flags & 0x80000 != 0) == (sync == 0x80003)
        &&& sharing == 0x02 ==> flags & 0x03 == 0x02
    }) by (bit_vector)
        requires
            flags == 0x10i32 | backing | sharing | swap | sync,
            backing == 0 || backing == 0x20,
            sharing == 0x01 || sharing == 0x02,
            swap == 0 || swap == 0x4000,
            sync == 0 || (sync == 0x80003 && sharing == 0x01),
    ;
    assert((1i32 | 0) & 1 != 0 && (1i32 | 2) & 1 != 0 && (1i32 | 2) & 2 != 0 && (1i32 | 0) & 2 == 0)
        by (bit_vector);
}

/// How far a mapping of guest RAM has got.
#[derive(Clone, Copy, Debug, PartialEq, Eq)]
pub enum RamPhase {
    /// An address range is to be reserved.
    Reserving,
    /// The range from `guard_addr` on is reserved, and its aligned part is to be made accessible.
    Activating { guard_addr: usize },
    /// Activation failed, and the range is to be given back.
    Unreserving { guard_addr: usize },
    /// The RAM is accessible at `addr`, and what lies in front of it is to be given back.
    TrimmingHead { guard_addr: usize, addr: usize },
    /// The RAM is accessible at `addr`.
    Mapped { addr: usize },
    /// There is no RAM.
    Failed,
}

/// What is to be done next.
#[derive(Clone, Copy, Debug, PartialEq, Eq)]
pub enum RamAction {
    /// Call `mmap`.
    Mmap(MmapRequest),
    /// Call `munmap`.
    Munmap { addr: usize, length: usize },
    /// Return the address of the RAM.
    Return(u64),
    /// Give up.
    Panic,
}

/// What has been done.
#[derive(Clone, Copy, Debug, PartialEq, Eq)]
pub enum RamEvent {
    /// `mmap` has returned this address.
    MapReturned(usize),
    /// `munmap` has returned. Whether it succeeded makes no difference.
    UnmapReturned,
}

/// Guest RAM that is being mapped.
#[derive(Clone, Copy, Debug, PartialEq, Eq)]
pub struct RamMmap {
    pub size: u64,
    pub fd: i32,
    pub phase: RamPhase,
}

/// How far the first aligned address is from `guard_addr`.
pub open spec fn head_length(guard_addr: usize) -> int {
    rounded_up(guard_addr as int, ALIGN as int) - guard_addr
}

impl RamMmap {
    /// The reservation for the RAM fits in the address space, and so does its aligned start.
    pub open spec fn wf(self) -> bool {
        &&& self.size + ALIGN <= usize::MAX
        &&& match self.phase {
            RamPhase::Activating { guard_addr } => guard_addr + ALIGN <= usize::MAX,
            RamPhase::TrimmingHead { guard_addr, addr: _ } => guard_addr + ALIGN <= usize::MAX,
            _ => true,
        }
    }

    /// How much address space is reserved.
    pub open spec fn total(self) -> int {
        self.size + ALIGN
    }

    /// The event is what the action that is due comes to. A reservation does not end at the very
    /// top of the address space.
    pub open spec fn awaits(self, event: RamEvent) -> bool {
        match (self.phase, event) {
            (RamPhase::Reserving, RamEvent::MapReturned(addr)) => addr == MAP_FAILED || addr + ALIGN
                <= usize::MAX,
            (RamPhase::Activating { .. }, RamEvent::MapReturned(_)) => true,
            (RamPhase::Unreserving { .. }, RamEvent::UnmapReturned) => true,
            (RamPhase::TrimmingHead { .. }, RamEvent::UnmapReturned) => true,
            _ => false,
        }
    }

    /// What is to be done next.
    pub open spec fn next_action(self) -> RamAction {
        match self.phase {
            RamPhase::Reserving => RamAction::Mmap(reserve_request(self.total() as usize, NO_FD)),
            RamPhase::Activating { guard_addr } => RamAction::Mmap(
                MmapRequest {
                    addr: rounded_up(guard_addr as int, ALIGN as int) as usize,
                    length: self.size as usize,
                    prot: activate_prot(0),
                    flags: activate_flags(self.fd, 0),
                    fd: self.fd,
                    offset: 0,
                },
            ),
            RamPhase::Unreserving { guard_addr } => RamAction::Munmap {
                addr: guard_addr,
                length: self.total() as usize,
            },
            RamPhase::TrimmingHead { guard_addr, addr: _ } => RamAction::Munmap {
                addr: guard_addr,
                length: head_length(guard_addr) as usize,
            },
            RamPhase::Mapped { addr } => RamAction::Return(addr as u64),
            RamPhase::Failed => RamAction::Panic,
        }
    }

    /// The mapping after the event.
    pub open spec fn after(self, event: RamEvent) -> RamMmap {
        let phase = match (self.phase, event) {
            (RamPhase::Reserving, RamEvent::MapReturned(addr)) => if addr == MAP_FAILED {
                RamPhase::Failed
            } else {
                RamPhase::Activating { guard_addr: addr }
            },
            (RamPhase::Activating { guard_addr }, RamEvent::MapReturned(addr)) => if addr
                == MAP_FAILED {
                RamPhase::Unreserving { guard_addr }
            } else if head_length(guard_addr) > 0 {
                RamPhase::TrimmingHead { guard_addr, addr }
            } else {
                RamPhase::Mapped { addr }
            },
            (RamPhase::Unreserving { .. }, RamEvent::UnmapReturned) => RamPhase::Failed,
            (RamPhase::TrimmingHead { guard_addr: _, addr }, RamEvent::UnmapReturned) =>
                RamPhase::Mapped { addr },
            (phase, _) => phase,
        };
        RamMmap { phase, ..self }
    }

    /// What is to be done next.
    pub fn action(&self) -> (r: RamAction)
        requires
            self.wf(),
        ensures
            r == self.next_action(),
    {
        let total: u64 = self.size + ALIGN;
        match self.phase {
            RamPhase::Reserving => RamAction::Mmap(mmap_reserve(total as usize, NO_FD)),
            RamPhase::Activating { guard_addr } => {
                let start: usize = align_up(guard_addr, ALIGN as usize);
                RamAction::Mmap(mmap_activate(start, self.size as usize, self.fd, 0, 0))
            },
            RamPhase::Unreserving { guard_addr } => RamAction::Munmap {
                addr: guard_addr,
                length: total as usize,
            },
            RamPhase::TrimmingHead { guard_addr, addr: _ } => RamAction::Munmap {
                addr: guard_addr,
                length: align_up(guard_addr, ALIGN as usize) - guard_addr,
            },
            RamPhase::Mapped { addr } => RamAction::Return(addr as u64),
            RamPhase::Failed => RamAction::Panic,
        }
    }

    /// Takes the event that the action came to.
    pub fn step(&mut self, event: RamEvent)
        requires
            old(self).wf(),
            old(self).awaits(event),
        ensures
            *final(self) == old(self).after(event),
            final(self).wf(),
    {
        match (self.phase, event) {
            (RamPhase::Reserving, RamEvent::MapReturned(addr)) => {
                if addr == MAP_FAILED {
                    self.phase = RamPhase::Failed;
                } else {
                    self.phase = RamPhase::Activating { guard_addr: addr };
                }
            },
            (RamPhase::Activating { guard_addr }, RamEvent::MapReturned(addr)) => {
                let offset: usize = align_up(guard_addr, ALIGN as usize) - guard_addr;
                if addr == MAP_FAILED {
                    self.phase = RamPhase::Unreserving { guard_addr };
                } else if offset > 0 {
                    self.phase = RamPhase::TrimmingHead { guard_addr, addr };
                } else {
                    self.phase = RamPhase::Mapped { addr };
                }
            },
            (RamPhase::TrimmingHead { guard_addr: _, addr }, _) => {
                self.phase = RamPhase::Mapped { addr };
            },
            _ => {
                self.phase = RamPhase::Failed;
            },
        }
    }
}

/// A mmap() abstraction to map guest RAM, simplifying the flag handling, taking care of
/// alignment requirements and installing guard pages.
pub fn ram_mmap(size: u64, fd: i32) -> (r: RamMmap)
    requires
        size + ALIGN <= usize::MAX,
    ensures
        r == (RamMmap { size, fd, phase: RamPhase::Reserving }),
        r.wf(),
{
    RamMmap { size, fd, phase: RamPhase::Reserving }
}

/// The RAM is aligned and lies inside the reservation. In front of it there is less than a page,
/// and that is what is given back. Behind it there remains what makes a guard of at most a page,
/// a whole page where the reservation itself is aligned; nothing reaches past the guard, so
/// nothing behind the RAM is ever given back.
pub proof fn law_ram_lies_between_head_and_guard(guard_addr: usize, size: u64)
    requires
        guard_addr + ALIGN <= usize::MAX,
    ensures
        ({
            let start = rounded_up(guard_addr as int, ALIGN as int);
            let end = guard_addr + size + ALIGN;
            let guard = end - (start + size);
            &&& is_multiple(start, ALIGN as int)
            &&& guard_addr <= start
            &&& head_length(guard_addr) < ALIGN
            &&& 0 < guard <= GUARD_PAGE_SIZE
            &&& guard == GUARD_PAGE_SIZE - head_length(guard_addr)
            &&& is_multiple(guard_addr as int, ALIGN as int) ==> guard == GUARD_PAGE_SIZE
        }),
{
    crate::align::law_align_up_is_least(guard_addr as int, ALIGN as int, 0);
}

/// If both calls of `mmap` succeed, the address that the second one returned is returned, after
/// what lies in front has been given back, if there is anything.
pub proof fn law_ram_is_mapped_when_both_calls_succeed(
    size: u64,
    fd: i32,
    guard_addr: usize,
    addr: usize,
)
    requires
        guard_addr != MAP_FAILED,
        addr != MAP_FAILED,
    ensures
        ({
            let start = RamMmap { size, fd, phase: RamPhase::Reserving };
            let mapped = start.after(RamEvent::MapReturned(guard_addr)).after(
                RamEvent::MapReturned(addr),
            );
            if head_length(guard_addr) > 0 {
                &&& mapped.next_action() == (RamAction::Munmap {
                    addr: guard_addr,
                    length: head_length(guard_addr) as usize,
                })
                &&& mapped.after(RamEvent::UnmapReturned).next_action() == RamAction::Return(
                    addr as u64,
                )
            } else {
                mapped.next_action() == RamAction::Return(addr as u64)
            }
        }),
{
}

/// If a call of `mmap` fails, nothing stays mapped: a failed reservation left nothing, and after a
/// failed activation the whole reservation is given back before giving up.
pub proof fn law_failure_leaves_nothing_mapped(size: u64, fd: i32, guard_addr: usize)
    requires
        size + ALIGN <= usize::MAX,
        guard_addr != MAP_FAILED,
    ensures
        ({
            let start = RamMmap { size, fd, phase: RamPhase::Reserving };
            let unreserving = start.after(RamEvent::MapReturned(guard_addr)).after(
                RamEvent::MapReturned(MAP_FAILED),
            );
            &&& start.after(RamEvent::MapReturned(MAP_FAILED)).next_action() == RamAction::Panic
            &&& unreserving.next_action() == (RamAction::Munmap {
                addr: guard_addr,
                length: (size + ALIGN) as usize,
            })
            &&& unreserving.after(RamEvent::UnmapReturned).next_action() == RamAction::Panic
        }),
{
}

/// How many calls a mapping of guest RAM still takes at most.
pub open spec fn calls_left(phase: RamPhase) -> nat {
    match phase {
        RamPhase::Reserving => 3,
        RamPhase::Activating { .. } => 2,
        RamPhase::Unreserving { .. } => 1,
        RamPhase::TrimmingHead { .. } => 1,
        RamPhase::Mapped { .. } => 0,
        RamPhase::Failed => 0,
    }
}

/// Every call brings the mapping closer to its end: it takes three calls at most, and after the
/// last one it returns an address or gives up.
pub proof fn law_ram_is_mapped_in_three_calls(ram: RamMmap, event: RamEvent)
    ensures
        ram.awaits(event) ==> calls_left(ram.after(event).phase) < calls_left(ram.phase),
        calls_left(ram.phase) <= 3,
        calls_left(ram.phase) == 0 <==> ram.next_action() is Return || ram.next_action() is Panic,
{
}

} // verus!
