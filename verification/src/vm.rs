//! The virtual machine of a trust domain.

use vstd::prelude::*;

use crate::capabilities::{
    describes, Capabilities, TdxCapabilities, TDX_CAP_GPAW_48, TDX_CAP_GPAW_52,
};
use crate::cmd::{command, kvm_result, Cmd, CmdId, TdxError};
use crate::cpuid::{
    answers, entry_limit, init_vm_entries, init_vm_table, vcpu_table, CpuId, CpuidEntry, CpuidRegs,
    INIT_VM_CPUID_SLOTS, KVM_MAX_CPUID_ENTRIES,
};
use crate::memory_region::MemRegion;
use crate::tdvf::{TdxFirmwareEntry, TDVF_SECTION_ATTRIBUTES_MR_EXTEND};

verus! {

/// The type of virtual machine that KVM runs as a trust domain.
pub const KVM_X86_TDX_VM: u64 = 2;

/// The capability that sets the largest number of vCPUs.
pub const KVM_CAP_MAX_VCPUS: u32 = 66;

/// The capability that moves the interrupt controllers out of the kernel, but for the local APICs.
pub const KVM_CAP_SPLIT_IRQCHIP: u32 = 121;

/// The number of input pins of the I/O APIC.
pub const IOAPIC_PINS: u64 = 24;

/// The argument of `KVM_ENABLE_CAP`.
#[derive(Clone, Copy, Debug, PartialEq, Eq)]
pub struct EnableCap {
    pub cap: u32,
    pub flags: u32,
    pub args: [u64; 4],
}

/// `request` enables the capability `cap` with one argument.
pub open spec fn enables(request: EnableCap, cap: u32, arg: u64) -> bool {
    &&& request.cap == cap
    &&& request.flags == 0
    &&& request.args@ == seq![arg, 0, 0, 0]
}

/// The parameters of `KVM_TDX_INIT_VM`.
#[derive(Clone, Debug, PartialEq, Eq)]
pub struct InitVm {
    /// The CPUID leaves of the guest, padded with empty entries.
    pub cpuid_entries: Vec<CpuidEntry>,
}

/// Handle to the TDX VM file descriptor
#[derive(Clone, Copy, Debug, PartialEq, Eq)]
pub struct TdxVm {
    /// The width of guest physical addresses in bits, or 0 while it is not known.
    pub phys_bits: u32,
}

/// The width that the address width word `gpaw` offers: 52 bits if it can be had, else 48. A word
/// that offers neither says nothing, and the width stays at `known`.
pub open spec fn best_width(gpaw: u32, known: u32) -> u32 {
    if gpaw & TDX_CAP_GPAW_52 != 0 {
        52
    } else if gpaw & TDX_CAP_GPAW_48 != 0 {
        48
    } else {
        known
    }
}

impl TdxVm {
    /// Create a new TDX VM with KVM
    ///
    /// `created` is what creating a machine of type [`KVM_X86_TDX_VM`] came to. Along with the
    /// handle come the capabilities to enable on the machine, in order: TDX requires that
    /// MAX_VCPUS and SPLIT_IRQCHIP be set.
    pub fn new<F>(created: Result<F, i32>, max_vcpus: u64) -> (r: Result<
        (Self, F, [EnableCap; 2]),
        TdxError,
    >)
        ensures
            match (created, r) {
                (Ok(vm_fd), Ok((vm, fd, caps))) => {
                    &&& vm.phys_bits == 0
                    &&& fd == vm_fd
                    &&& enables(caps@[0], KVM_CAP_MAX_VCPUS, max_vcpus)
                    &&& enables(caps@[1], KVM_CAP_SPLIT_IRQCHIP, IOAPIC_PINS)
                },
                (Err(code), Err(e)) => e == (TdxError { code }),
                _ => false,
            },
    {
        let vm_fd = match kvm_result(created) {
            Ok(vm_fd) => vm_fd,
            Err(e) => {
                return Err(e);
            },
        };
        let max = EnableCap { cap: KVM_CAP_MAX_VCPUS, flags: 0, args: [max_vcpus, 0, 0, 0] };
        let split = EnableCap {
            cap: KVM_CAP_SPLIT_IRQCHIP,
            flags: 0,
            args: [IOAPIC_PINS, 0, 0, 0],
        };
        assert(max.args@ =~= seq![max_vcpus, 0, 0, 0]);
        assert(split.args@ =~= seq![IOAPIC_PINS, 0, 0, 0]);
        Ok((TdxVm { phys_bits: 0 }, vm_fd, [max, split]))
    }

    /// Retrieve information about the Intel TDX module
    ///
    /// `reply` is the answer to the command [`CmdId::GetCapabilities`].
    pub fn get_capabilities(&mut self, reply: Result<Capabilities, i32>) -> (r: Result<
        TdxCapabilities,
        TdxError,
    >)
        ensures
            match (reply, r) {
                (Ok(raw), Ok(caps)) => {
                    &&& describes(caps, raw)
                    &&& final(self).phys_bits == best_width(raw.supported_gpaw, old(self).phys_bits)
                },
                (Err(code), Err(e)) => e == (TdxError { code }) && *final(self) == *old(self),
                _ => false,
            },
    {
        let raw = match kvm_result(reply) {
            Ok(raw) => raw,
            Err(e) => {
                return Err(e);
            },
        };
        if raw.supported_gpaw & TDX_CAP_GPAW_52 > 0 {
            self.phys_bits = 52;
        } else if raw.supported_gpaw & TDX_CAP_GPAW_48 > 0 {
            self.phys_bits = 48;
        }
        Ok(TdxCapabilities::from_raw(raw))
    }

    /// Do additional VM initialization that is specific to Intel TDX
    ///
    /// `supported` is the CPUID table that KVM supports, and `host` holds the host processor's
    /// answers to [`crate::cpuid::host_queries`]. The result is the parameter block of the command
    /// [`CmdId::InitVm`]; what the command came to is for [`TdxVm::init_vm_result`].
    pub fn init_vm(
        &self,
        supported: &CpuId,
        host: &Vec<Option<CpuidRegs>>,
        caps: &TdxCapabilities,
    ) -> (r: InitVm)
        requires
            answers(host@, supported@),
        ensures
            r.cpuid_entries@ == init_vm_entries(supported@, host@, caps.nr_cpuid_configs),
            r.cpuid_entries@.len() == INIT_VM_CPUID_SLOTS,
    {
        InitVm { cpuid_entries: init_vm_table(supported, host, caps.nr_cpuid_configs) }
    }

    /// The CPUID table for the vCPUs, once the command [`CmdId::InitVm`] with the parameters `init`
    /// has been answered.
    pub fn init_vm_result(
        &self,
        init: &InitVm,
        caps: &TdxCapabilities,
        reply: Result<(), i32>,
    ) -> (r: Result<CpuId, TdxError>)
        requires
            reply is Ok ==> entry_limit(caps.nr_cpuid_configs) <= KVM_MAX_CPUID_ENTRIES
                && entry_limit(caps.nr_cpuid_configs) <= init.cpuid_entries@.len(),
        ensures
            match (reply, r) {
                (Ok(_), Ok(cpuid)) => cpuid@ == init.cpuid_entries@.take(
                    entry_limit(caps.nr_cpuid_configs),
                ),
                (Err(code), Err(e)) => e == (TdxError { code }),
                _ => false,
            },
    {
        match kvm_result(reply) {
            Ok(_) => Ok(vcpu_table(&init.cpuid_entries, caps.nr_cpuid_configs)),
            Err(e) => Err(e),
        }
    }

    /// Encrypt a memory continuous region
    pub fn init_mem_region(&self, section: &TdxFirmwareEntry) -> (r: MemRegion)
        ensures
            r == MemRegion::starting(
                section.mem_ptr,
                section.memory_address,
                section.memory_data_size / 4096,
                section.attributes & TDVF_SECTION_ATTRIBUTES_MR_EXTEND != 0,
            ),
            r.wf(),
    {
        let size: u64 = section.memory_data_size;
        assert(size >> 12u64 == size / 4096) by (bit_vector);
        MemRegion::start(
            section.mem_ptr,
            section.memory_address,
            size >> 12u64,
            section.attributes & TDVF_SECTION_ATTRIBUTES_MR_EXTEND > 0,
        )
    }

    /// Encrypts `nr_pages` pages from the guest physical address `gpa` on, with the contents at
    /// `source_addr`, and measures them if `extend` says so.
    pub fn init_mem_region_raw(
        &self,
        source_addr: u64,
        gpa: u64,
        nr_pages: u64,
        extend: bool,
    ) -> (r: MemRegion)
        ensures
            r == MemRegion::starting(source_addr, gpa, nr_pages, extend),
            r.wf(),
    {
        MemRegion::start(source_addr, gpa, nr_pages, extend)
    }

    /// Complete measurement of the initial TD contents and mark it ready to run
    pub fn finalize(&self) -> (r: Cmd)
        ensures
            r == command(CmdId::FinalizeVm, 0),
    {
        Cmd::new(CmdId::FinalizeVm, 0)
    }
}

/// The wider of the two address widths wins, whatever was known before, and asking again changes
/// nothing.
pub proof fn law_widest_address_wins(gpaw: u32, known: u32)
    ensures
        gpaw & TDX_CAP_GPAW_52 != 0 ==> best_width(gpaw, known) == 52,
        best_width(gpaw, known) == 52 || best_width(gpaw, known) == 48 || best_width(gpaw, known)
            == known,
        gpaw % 4 == 0 ==> best_width(gpaw, known) == known,
        best_width(gpaw, best_width(gpaw, known)) == best_width(gpaw, known),
{
    assert(gpaw % 4 == 0 ==> gpaw & (1u32 << 1) == 0 && gpaw & (1u32 << 0) == 0) by (bit_vector);
}

/// A section goes into the trust domain as the region of pages that it covers: if it starts and
/// ends at page boundaries, the region is exactly the section, and it is measured if and only if
/// the section says so.
pub proof fn law_section_is_covered_by_its_pages(section: TdxFirmwareEntry)
    ensures
        ({
            let region = MemRegion::starting(
                section.mem_ptr,
                section.memory_address,
                section.memory_data_size / 4096,
                section.attributes & TDVF_SECTION_ATTRIBUTES_MR_EXTEND != 0,
            );
            &&& region.mapping.source == section.mem_ptr
            &&& section.memory_address % 4096 == 0 ==> region.mapping.base_gf * 4096
                == section.memory_address
            &&& section.memory_data_size % 4096 == 0 ==> region.mapping.nr_pages * 4096
                == section.memory_data_size
            &&& region.extend == (section.attributes % 2 == 1)
        }),
{
    let a = section.attributes;
    assert((a & 1 != 0) == (a % 2 == 1)) by (bit_vector);
}

} // verus!
