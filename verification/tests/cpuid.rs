use tdx_launch::capabilities::{Capabilities, CpuidConfig, TdxCapabilities};
use tdx_launch::cmd::TdxError;
use tdx_launch::cpuid::{
    host_queries, set_cpuid_with_x2apic, CpuId, CpuidEntry, CpuidRegs, HostQuery,
    SizeLimitExceeded, INIT_VM_CPUID_SLOTS, KVM_MAX_CPUID_ENTRIES,
};
use tdx_launch::vm::{InitVm, TdxVm};

fn entry(function: u32, index: u32, eax: u32, ebx: u32, ecx: u32, edx: u32) -> CpuidEntry {
    CpuidEntry { function, index, flags: 7, eax, ebx, ecx, edx, padding: [1, 2, 3] }
}

fn empty() -> CpuidEntry {
    CpuidEntry {
        function: 0,
        index: 0,
        flags: 0,
        eax: 0,
        ebx: 0,
        ecx: 0,
        edx: 0,
        padding: [0; 3],
    }
}

fn regs(eax: u32, ebx: u32, ecx: u32, edx: u32) -> Option<CpuidRegs> {
    Some(CpuidRegs { eax, ebx, ecx, edx })
}

fn table(entries: &[CpuidEntry]) -> CpuId {
    CpuId::from_entries(&entries.to_vec()).unwrap()
}

fn caps(nr_cpuid_configs: u32) -> TdxCapabilities {
    TdxCapabilities::from_raw(Capabilities {
        attrs_fixed0: 0,
        attrs_fixed1: 0,
        xfam_fixed0: 0,
        xfam_fixed1: 0,
        supported_gpaw: 0,
        nr_cpuid_configs,
        cpuid_configs: vec![CpuidConfig { leaf: 1, sub_leaf: 0, eax: 0, ebx: 0, ecx: 0, edx: 0 }],
    })
}

fn vm() -> TdxVm {
    TdxVm { phys_bits: 0 }
}

#[test]
fn table_keeps_its_entries() {
    let entries = vec![entry(0, 0, 1, 2, 3, 4), entry(7, 1, 0, 0, 0, 9)];
    assert_eq!(CpuId::from_entries(&entries).unwrap().entries(), entries);
    assert_eq!(table(&[]).entries(), vec![]);
}

#[test]
fn table_has_a_largest_size() {
    assert_eq!(KVM_MAX_CPUID_ENTRIES, kvm_bindings::KVM_MAX_CPUID_ENTRIES);
    let full = vec![entry(1, 0, 1, 1, 1, 1); KVM_MAX_CPUID_ENTRIES];
    assert_eq!(CpuId::from_entries(&full).unwrap().entries(), full);
    let over = vec![entry(1, 0, 1, 1, 1, 1); KVM_MAX_CPUID_ENTRIES + 1];
    assert!(matches!(CpuId::from_entries(&over), Err(SizeLimitExceeded)));
}

#[test]
fn x2apic_is_set_in_feature_leaves_only() {
    let mut cpuid =
        table(&[entry(0, 0, 1, 2, 3, 4), entry(1, 0, 5, 6, 0x8000_0001, 8), entry(1, 1, 0, 0, 0, 0)]);
    set_cpuid_with_x2apic(&mut cpuid);
    let expected = vec![
        entry(0, 0, 1, 2, 3, 4),
        entry(1, 0, 5, 6, 0x8020_0001, 8),
        entry(1, 1, 0, 0, 0x0020_0000, 0),
    ];
    assert_eq!(cpuid.entries(), expected);
    set_cpuid_with_x2apic(&mut cpuid);
    assert_eq!(cpuid.entries(), expected);
}

#[test]
fn x2apic_of_an_empty_table() {
    let mut cpuid = table(&[]);
    set_cpuid_with_x2apic(&mut cpuid);
    assert_eq!(cpuid.entries(), vec![]);
}

#[test]
fn host_is_asked_about_all_leaves_but_basic_and_xstate() {
    let supported = table(&[
        entry(0, 0, 1, 2, 3, 4),
        entry(0, 1, 1, 2, 3, 4),
        entry(0xd, 0, 1, 2, 3, 4),
        entry(0xd, 5, 1, 2, 3, 4),
        entry(4, 2, 1, 2, 3, 4),
    ]);
    assert_eq!(
        host_queries(&supported),
        vec![
            None,
            Some(HostQuery { function: 0, index: 1 }),
            None,
            None,
            Some(HostQuery { function: 4, index: 2 }),
        ]
    );
}

#[test]
fn host_registers_replace_those_of_kvm() {
    let supported = table(&[entry(0, 0, 1, 2, 3, 4), entry(7, 0, 1, 2, 3, 4), entry(0xd, 1, 0, 0, 0, 0)]);
    let host = vec![None, regs(50, 60, 70, 80), None];
    let init = vm().init_vm(&supported, &host, &caps(10));
    assert_eq!(init.cpuid_entries.len(), INIT_VM_CPUID_SLOTS);
    assert_eq!(init.cpuid_entries[0], entry(0, 0, 1, 2, 3, 4));
    assert_eq!(init.cpuid_entries[1], entry(7, 0, 50, 60, 70, 80));
    assert_eq!(init.cpuid_entries[2], entry(0xd, 1, 0, 0, 0, 0));
    assert_eq!(init.cpuid_entries[3], empty());
    assert_eq!(init.cpuid_entries[255], empty());
}

#[test]
fn silent_leaves_are_dropped_unless_their_zeros_matter() {
    let supported = table(&[
        entry(2, 0, 1, 1, 1, 1),
        entry(4, 0, 1, 1, 1, 1),
        entry(5, 0, 1, 1, 1, 1),
        entry(0x12, 0, 1, 1, 1, 1),
        entry(0x14, 0, 1, 1, 1, 1),
        entry(0x15, 0, 1, 1, 1, 1),
        entry(0x16, 0, 0, 0, 0, 0),
        entry(0, 0, 0, 0, 0, 0),
    ]);
    let zero = regs(0, 0, 0, 0);
    let host = vec![zero, zero, zero, zero, zero, zero, regs(0, 0, 0, 1), None];
    let init = vm().init_vm(&supported, &host, &caps(80));
    assert_eq!(init.cpuid_entries.len(), 256);
    assert_eq!(
        init.cpuid_entries[..5].to_vec(),
        vec![
            entry(4, 0, 0, 0, 0, 0),
            entry(0x12, 0, 0, 0, 0, 0),
            entry(0x14, 0, 0, 0, 0, 0),
            entry(0x16, 0, 0, 0, 0, 1),
            empty(),
        ]
    );
}

#[test]
fn table_is_cut_to_what_the_platform_accepts() {
    let leaves: Vec<CpuidEntry> = (1..=5).map(|i| entry(0xd, i, i, 0, 0, 0)).collect();
    let supported = table(&leaves);
    let host = vec![None; 5];
    let init = vm().init_vm(&supported, &host, &caps(3));
    assert_eq!(init.cpuid_entries[..3], leaves[..3]);
    assert_eq!(init.cpuid_entries[3], empty());
    let vcpus = vm().init_vm_result(&init, &caps(3), Ok(())).unwrap();
    assert_eq!(vcpus.entries(), leaves[..3].to_vec());
}

#[test]
fn platform_that_accepts_no_leaf_gets_one() {
    let leaves: Vec<CpuidEntry> = (1..=2).map(|i| entry(0xd, i, i, 0, 0, 0)).collect();
    let init = vm().init_vm(&table(&leaves), &vec![None; 2], &caps(0));
    assert_eq!(init.cpuid_entries[0], leaves[0]);
    assert_eq!(init.cpuid_entries[1], empty());
    let vcpus = vm().init_vm_result(&init, &caps(0), Ok(())).unwrap();
    assert_eq!(vcpus.entries(), vec![leaves[0]]);
}

#[test]
fn vcpu_table_is_filled_up_to_the_limit() {
    let init = vm().init_vm(&table(&[entry(0xd, 0, 1, 1, 1, 1)]), &vec![None], &caps(80));
    let vcpus = vm().init_vm_result(&init, &caps(80), Ok(())).unwrap();
    assert_eq!(vcpus.entries().len(), 80);
    assert_eq!(vcpus.entries()[0], entry(0xd, 0, 1, 1, 1, 1));
    assert_eq!(vcpus.entries()[1], empty());
}

#[test]
fn slots_are_filled_whatever_the_limit() {
    let leaves: Vec<CpuidEntry> = (1..=80).map(|i| entry(0xd, i, i, 0, 0, 0)).collect();
    let supported = table(&leaves);
    for limit in [0, 1, 79, 80, 81, 256, 257, 100_000] {
        let init = vm().init_vm(&supported, &vec![None; 80], &caps(limit));
        assert_eq!(init.cpuid_entries.len(), INIT_VM_CPUID_SLOTS);
    }
    let init = vm().init_vm(&supported, &vec![None; 80], &caps(100_000));
    assert_eq!(init.cpuid_entries[..80], leaves[..]);
    assert_eq!(init.cpuid_entries[80], empty());
}

#[test]
fn failed_initialisation_is_reported() {
    let init = InitVm { cpuid_entries: vec![] };
    assert!(matches!(
        vm().init_vm_result(&init, &caps(500), Err(7)),
        Err(TdxError { code: 7 })
    ));
}
