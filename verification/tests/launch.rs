use tdx_launch::align::{align_down, align_up};
use tdx_launch::bits::bit;
use tdx_launch::capabilities::{Capabilities, CpuidConfig, TDX_CAP_GPAW_48, TDX_CAP_GPAW_52};
use tdx_launch::cmd::{ioctl_result, kvm_result, Cmd, CmdId, TdxError};
use tdx_launch::flags::{AttributesFlags, XFAMFlags};
use tdx_launch::memory_region::{MemRegion, MemRegionAction, MemoryMapping, EAGAIN, EINTR};
use tdx_launch::tdvf::TdxFirmwareEntry;
use tdx_launch::vcpu::{init_vcpu, TdxVcpu};
use tdx_launch::vm::{
    EnableCap, TdxVm, KVM_CAP_MAX_VCPUS, KVM_CAP_SPLIT_IRQCHIP, KVM_X86_TDX_VM,
};

fn raw(supported_gpaw: u32) -> Capabilities {
    Capabilities {
        attrs_fixed0: 0xffff_0000_1234_5678,
        attrs_fixed1: 0x8000_0000_0000_0001,
        xfam_fixed0: 0xffff_ffff_ffff_ffff,
        xfam_fixed1: 0x8_0003,
        supported_gpaw,
        nr_cpuid_configs: 1,
        cpuid_configs: vec![
            CpuidConfig { leaf: 1, sub_leaf: 2, eax: 3, ebx: 4, ecx: 5, edx: 6 },
            CpuidConfig { leaf: 0, sub_leaf: 0, eax: 0, ebx: 0, ecx: 0, edx: 0 },
        ],
    }
}

fn section(attributes: u32) -> TdxFirmwareEntry {
    TdxFirmwareEntry {
        memory_address: 0x80_2fff,
        memory_data_size: 0x5800,
        attributes,
        mem_ptr: 0x7f00_0000_1000,
    }
}

#[test]
fn rounding() {
    assert_eq!(align_down(4097, 4096), 4096);
    assert_eq!(align_down(4095, 4096), 0);
    assert_eq!(align_down(10, 3), 9);
    assert_eq!(align_up(4097, 4096), 8192);
    assert_eq!(align_up(4096, 4096), 4096);
    assert_eq!(align_up(0, 4096), 0);
    assert_eq!(align_up(10, 3), 12);
    assert_eq!(align_up(usize::MAX - 1, 1), usize::MAX - 1);
    assert_eq!(align_up(align_up(10, 3), 3), 12);
    assert_eq!(align_down(align_down(10, 3), 3), 9);
}

#[test]
fn single_bits() {
    assert_eq!(bit(0), 1);
    assert_eq!(bit(21), 0x20_0000);
    assert_eq!(bit(31), 0x8000_0000);
}

#[test]
fn attribute_bits_are_all_flags() {
    assert_eq!(AttributesFlags::ALL, u64::MAX);
    assert_eq!(AttributesFlags::from_bits_truncate(0x1234_5678_9abc_def0).bits(), 0x1234_5678_9abc_def0);
    assert_eq!(AttributesFlags::SEPT_VE_DISABLE, 0x1000_0000);
    assert_eq!(AttributesFlags::SEC_EXP_RESERVED, 0x00ff_ffff_0000_0000);
    assert_eq!(AttributesFlags::OTHER_RESERVED, 0x3fff_ffff_0000_0000);
}

#[test]
fn unknown_features_are_dropped() {
    assert_eq!(XFAMFlags::ALL, 0x7_ffff);
    assert_eq!(XFAMFlags::from_bits_truncate(u64::MAX).bits(), 0x7_ffff);
    assert_eq!(XFAMFlags::from_bits_truncate(0xf_0000_0005).bits(), 5);
    let once = XFAMFlags::from_bits_truncate(0xabcd_ef01);
    assert_eq!(XFAMFlags::from_bits_truncate(once.bits()), once);
    assert_eq!(XFAMFlags::AMX, 0x6_0000);
}

#[test]
fn new_machine_asks_for_its_capabilities() {
    assert_eq!(KVM_X86_TDX_VM, 2);
    assert_eq!(KVM_CAP_MAX_VCPUS, kvm_bindings::KVM_CAP_MAX_VCPUS);
    assert_eq!(KVM_CAP_SPLIT_IRQCHIP, kvm_bindings::KVM_CAP_SPLIT_IRQCHIP);
    let (vm, fd, caps) = TdxVm::new(Ok("fd"), 100).unwrap();
    assert_eq!(vm.phys_bits, 0);
    assert_eq!(fd, "fd");
    assert_eq!(
        caps,
        [
            EnableCap { cap: KVM_CAP_MAX_VCPUS, flags: 0, args: [100, 0, 0, 0] },
            EnableCap { cap: KVM_CAP_SPLIT_IRQCHIP, flags: 0, args: [24, 0, 0, 0] },
        ]
    );
}

#[test]
fn machine_that_cannot_be_created() {
    assert_eq!(TdxVm::new::<()>(Err(22), 1).unwrap_err(), TdxError { code: 22 });
}

#[test]
fn capabilities_are_read() {
    let mut vm = TdxVm { phys_bits: 0 };
    let caps = vm.get_capabilities(Ok(raw(TDX_CAP_GPAW_48))).unwrap();
    assert_eq!(caps.attributes.fixed0.bits(), 0xffff_0000_1234_5678);
    assert_eq!(caps.attributes.fixed1.bits(), 0x8000_0000_0000_0001);
    assert_eq!(caps.xfam.fixed0.bits(), 0x7_ffff);
    assert_eq!(caps.xfam.fixed1.bits(), 3);
    assert_eq!(caps.supported_gpaw, TDX_CAP_GPAW_48);
    assert_eq!(caps.nr_cpuid_configs, 1);
    assert_eq!(caps.cpuid_configs, raw(0).cpuid_configs);
    assert_eq!(vm.phys_bits, 48);
}

#[test]
fn widest_address_wins() {
    let mut vm = TdxVm { phys_bits: 0 };
    vm.get_capabilities(Ok(raw(TDX_CAP_GPAW_48 | TDX_CAP_GPAW_52))).unwrap();
    assert_eq!(vm.phys_bits, 52);
    vm.get_capabilities(Ok(raw(4))).unwrap();
    assert_eq!(vm.phys_bits, 52);
    vm.get_capabilities(Ok(raw(TDX_CAP_GPAW_48))).unwrap();
    assert_eq!(vm.phys_bits, 48);
}

#[test]
fn refused_capabilities_leave_the_width_alone() {
    let mut vm = TdxVm { phys_bits: 48 };
    assert_eq!(vm.get_capabilities(Err(25)).unwrap_err(), TdxError { code: 25 });
    assert_eq!(vm.phys_bits, 48);
}

#[test]
fn section_becomes_a_region() {
    let vm = TdxVm { phys_bits: 52 };
    let region = vm.init_mem_region(&section(0x1));
    assert_eq!(
        region.action(),
        MemRegionAction::MapMemory(MemoryMapping {
            base_gf: 0x802,
            nr_pages: 5,
            flags: 0,
            source: 0x7f00_0000_1000,
        })
    );
    assert!(region.extend);
    assert!(vm.init_mem_region(&section(0x3)).extend);
    assert!(!vm.init_mem_region(&section(0x2)).extend);
    assert_eq!(region, vm.init_mem_region_raw(0x7f00_0000_1000, 0x80_2fff, 5, true));
}

#[test]
fn interrupted_mapping_is_tried_again() {
    assert_eq!(EINTR, libc::EINTR);
    assert_eq!(EAGAIN, libc::EAGAIN);
    let start = TdxVm { phys_bits: 52 }.init_mem_region_raw(0x1000, 0x4000, 2, false);
    let mut region = start;
    region.step(Err(libc::EINTR));
    region.step(Err(libc::EAGAIN));
    region.step(Err(libc::EINTR));
    assert_eq!(region, start);
    region.step(Ok(()));
    assert_eq!(region.action(), MemRegionAction::Return(Ok(())));
}

#[test]
fn failed_mapping_is_reported() {
    let mut region = MemRegion::start(0x1000, 0x4000, 2, true);
    region.step(Err(libc::EAGAIN));
    region.step(Err(libc::EINVAL));
    assert_eq!(region.action(), MemRegionAction::Return(Err(TdxError { code: libc::EINVAL })));
    let failed = region;
    region.step(Ok(()));
    assert_eq!(region, failed);
}

#[test]
fn mapped_region_is_measured_by_its_pages() {
    let mut region = MemRegion::start(0x1000, 0x4000, 2, true);
    region.step(Ok(()));
    assert_eq!(
        region.action(),
        MemRegionAction::ExtendMeasurement(MemoryMapping {
            base_gf: 4,
            nr_pages: 2,
            flags: 0,
            source: 0,
        })
    );
    let mut failed = region;
    region.step(Ok(()));
    assert_eq!(region.action(), MemRegionAction::Return(Ok(())));
    failed.step(Err(libc::EINTR));
    assert_eq!(failed.action(), MemRegionAction::Return(Err(TdxError { code: libc::EINTR })));
}

#[test]
fn commands_are_numbered() {
    assert_eq!(CmdId::GetCapabilities.number(), 0);
    assert_eq!(CmdId::InitVm.number(), 1);
    assert_eq!(CmdId::InitVcpu.number(), 2);
    assert_eq!(CmdId::ExtendMemory.number(), 3);
    assert_eq!(CmdId::FinalizeVm.number(), 4);
    assert_eq!(
        Cmd::new(CmdId::InitVm, 0xabc),
        Cmd { id: 1, flags: 0, data: 0xabc, error: 0, _unused: 0 }
    );
    assert_eq!(Cmd::get_capabilities(0x10), Cmd::new(CmdId::GetCapabilities, 0x10));
    assert_eq!(Cmd::init_vm(0x20), Cmd::new(CmdId::InitVm, 0x20));
    assert_eq!(Cmd::extend_memory(0x30), Cmd::new(CmdId::ExtendMemory, 0x30));
}

#[test]
fn finalisation_takes_no_argument() {
    assert_eq!(
        TdxVm { phys_bits: 48 }.finalize(),
        Cmd { id: 4, flags: 0, data: 0, error: 0, _unused: 0 }
    );
}

#[test]
fn vcpu_is_initialised_with_the_hob_address() {
    let vcpu = TdxVcpu::try_from(9, Ok(())).unwrap();
    assert_eq!(vcpu.fd, 9);
    let call = vcpu.init(0x80_9000);
    assert_eq!(call.request, 0xc008_aeba);
    assert_eq!(call.arg, Cmd { id: 2, flags: 0, data: 0x80_9000, error: 0, _unused: 0 });
    assert_eq!(init_vcpu(0x80_9000), call);
}

#[test]
fn vcpu_without_a_cpuid_table() {
    assert_eq!(TdxVcpu::try_from(9, Err(14)).unwrap_err(), TdxError { code: 14 });
}

#[test]
fn replies_become_results() {
    assert_eq!(kvm_result(Ok(5)), Ok(5));
    assert_eq!(kvm_result::<()>(Err(19)), Err(TdxError { code: 19 }));
    assert_eq!(TdxError::from(3), TdxError { code: 3 });
    assert_eq!(ioctl_result(-1, 5), Err(TdxError { code: 5 }));
    assert_eq!(ioctl_result(0, 5), Ok(()));
    assert_eq!(ioctl_result(3, 5), Ok(()));
}
