//! Laws of the machine, its vCPUs, and the commands that they are given.

use vstd::prelude::*;

use crate::align::{align_down, align_up};
use crate::bits::bit;
use crate::capabilities::{Capabilities, TdxCapabilities};
use crate::cmd::{ioctl_result, kvm_result, Cmd, CmdId, TdxError};
use crate::flags::{AttributesFlags, XFAMFlags};
use crate::ioctl::Ioctl;
use crate::memory_region::{MemRegion, MemRegionAction, MemRegionPhase, MemoryMapping};
use crate::tdvf::TdxFirmwareEntry;
use crate::vcpu::{init_vcpu, TdxVcpu};
use crate::vm::{EnableCap, TdxVm};

verus! {

/// Rounding down gives a whole number of `m`s that is at most `n` and less than `m` below it. It
/// can be asked for any `m` but zero.
pub proof fn law_align_down(n: usize, m: usize, r: usize)
    requires
        m > 0,
        call_ensures(align_down, (n, m), r),
    ensures
        call_requires(align_down, (n, m)),
        r as int % m as int == 0,
        r <= n,
        n - r < m,
{
}

/// Rounding up gives a whole number of `m`s that is at least `n` and less than `m` above it. It
/// can be asked wherever the sum of the two numbers exists.
pub proof fn law_align_up(n: usize, m: usize, r: usize)
    requires
        m > 0,
        n + m <= usize::MAX,
        call_ensures(align_up, (n, m), r),
    ensures
        call_requires(align_up, (n, m)),
        r as int % m as int == 0,
        n <= r,
        r - n < m,
{
}

/// Both roundings are monotone, and they agree on exactly the multiples.
pub proof fn law_roundings_compare(
    n: usize,
    other: usize,
    m: usize,
    down: usize,
    up: usize,
    other_down: usize,
    other_up: usize,
)
    requires
        m > 0,
        n <= other,
        other + m <= usize::MAX,
        call_ensures(align_down, (n, m), down),
        call_ensures(align_up, (n, m), up),
        call_ensures(align_down, (other, m), other_down),
        call_ensures(align_up, (other, m), other_up),
    ensures
        down <= other_down,
        up <= other_up,
        down == up <==> n as int % m as int == 0,
        down != up ==> up == down + m,
{
    crate::align::law_align_down_is_greatest(n as int, m as int, down as int);
    crate::align::law_align_down_is_greatest(other as int, m as int, down as int);
    crate::align::law_align_up_is_least(n as int, m as int, other_up as int);
}

/// A mask is the power of two of its bit number.
pub proof fn law_bit(nr: u32, mask: u32)
    requires
        nr < 32,
        call_ensures(bit, (nr,), mask),
    ensures
        call_requires(bit, (nr,)),
        mask == vstd::arithmetic::power2::pow2(nr as nat),
{
}

/// The attribute set of a word has just the bits of the word.
pub proof fn law_attributes_are_the_word(word: u64, flags: AttributesFlags, bits: u64)
    requires
        call_ensures(AttributesFlags::from_bits_truncate, (word,), flags),
        call_ensures(AttributesFlags::bits, (&flags,), bits),
    ensures
        bits == word,
{
    crate::flags::law_attribute_flags_cover_the_word(word);
}

/// The feature set of a word has the bits of the word below bit 19, and no other.
pub proof fn law_features_are_the_low_bits(word: u64, flags: XFAMFlags, bits: u64)
    requires
        call_ensures(XFAMFlags::from_bits_truncate, (word,), flags),
        call_ensures(XFAMFlags::bits, (&flags,), bits),
    ensures
        bits == word % 0x8_0000,
{
    crate::flags::law_xfam_flags_are_the_low_bits(word);
}

/// The raw answer is read word by word: the attribute words as they are, the feature words below
/// bit 19, the rest as it is.
pub proof fn law_raw_answer_is_read_word_by_word(raw: Capabilities, caps: TdxCapabilities)
    requires
        call_ensures(TdxCapabilities::from_raw, (raw,), caps),
    ensures
        caps.attributes.fixed0@ == raw.attrs_fixed0,
        caps.attributes.fixed1@ == raw.attrs_fixed1,
        caps.xfam.fixed0@ == raw.xfam_fixed0 % 0x8_0000,
        caps.xfam.fixed1@ == raw.xfam_fixed1 % 0x8_0000,
        caps.supported_gpaw == raw.supported_gpaw,
        caps.nr_cpuid_configs == raw.nr_cpuid_configs,
        caps.cpuid_configs@ == raw.cpuid_configs@,
{
    crate::flags::law_attribute_flags_cover_the_word(raw.attrs_fixed0);
    crate::flags::law_attribute_flags_cover_the_word(raw.attrs_fixed1);
    crate::flags::law_xfam_flags_are_the_low_bits(raw.xfam_fixed0);
    crate::flags::law_xfam_flags_are_the_low_bits(raw.xfam_fixed1);
}

/// The view of a flag set is what it gives out as its bits.
pub proof fn law_flags_give_out_their_view(
    attributes: AttributesFlags,
    attribute_bits: u64,
    features: XFAMFlags,
    feature_bits: u64,
)
    requires
        call_ensures(AttributesFlags::bits, (&attributes,), attribute_bits),
        call_ensures(XFAMFlags::bits, (&features,), feature_bits),
    ensures
        attribute_bits == attributes@,
        feature_bits == features@,
{
}

/// Asking for capabilities succeeds if and only if the kernel answers. Then every word of the
/// answer is passed on, and the address width is 52 if bit 1 of the width word is set, else 48 if
/// bit 0 is, else what it was. A refusal is passed on with its number, and changes nothing.
pub proof fn law_get_capabilities(
    vm: &mut TdxVm,
    reply: Result<Capabilities, i32>,
    r: Result<TdxCapabilities, TdxError>,
)
    requires
        call_ensures(TdxVm::get_capabilities, (vm, reply), r),
    ensures
        r is Ok <==> reply is Ok,
        reply matches Err(code) ==> r->Err_0.code == code && final(vm).phys_bits == old(vm).phys_bits,
        reply matches Ok(raw) ==> {
            &&& r->Ok_0.attributes.fixed0@ == raw.attrs_fixed0
            &&& r->Ok_0.attributes.fixed1@ == raw.attrs_fixed1
            &&& r->Ok_0.xfam.fixed0@ == raw.xfam_fixed0 % 0x8_0000
            &&& r->Ok_0.xfam.fixed1@ == raw.xfam_fixed1 % 0x8_0000
            &&& r->Ok_0.supported_gpaw == raw.supported_gpaw
            &&& r->Ok_0.nr_cpuid_configs == raw.nr_cpuid_configs
            &&& r->Ok_0.cpuid_configs@ == raw.cpuid_configs@
            &&& raw.supported_gpaw % 4 >= 2 ==> final(vm).phys_bits == 52
            &&& raw.supported_gpaw % 4 == 1 ==> final(vm).phys_bits == 48
            &&& raw.supported_gpaw % 4 == 0 ==> final(vm).phys_bits == old(vm).phys_bits
        },
{
    if let Ok(raw) = reply {
        let gpaw = raw.supported_gpaw;
        assert({
            &&& (gpaw & (1u32 << 1) != 0) == (gpaw % 4 >= 2)
            &&& (gpaw & (1u32 << 0) != 0) == (gpaw % 2 == 1)
        }) by (bit_vector);
        crate::flags::law_attribute_flags_cover_the_word(raw.attrs_fixed0);
        crate::flags::law_attribute_flags_cover_the_word(raw.attrs_fixed1);
        crate::flags::law_xfam_flags_are_the_low_bits(raw.xfam_fixed0);
        crate::flags::law_xfam_flags_are_the_low_bits(raw.xfam_fixed1);
    }
}

/// A machine is had if and only if KVM created one. Its handle is passed on, the address width is
/// not known yet, and two capabilities are to be enabled: number 66 with the number of vCPUs, then
/// number 121 with 24, each with that one argument and no flags.
pub proof fn law_new_machine<F>(
    created: Result<F, i32>,
    max_vcpus: u64,
    r: Result<(TdxVm, F, [EnableCap; 2]), TdxError>,
)
    requires
        call_ensures(TdxVm::new::<F>, (created, max_vcpus), r),
    ensures
        r is Ok <==> created is Ok,
        created matches Err(code) ==> r->Err_0.code == code,
        created matches Ok(fd) ==> {
            let caps = r->Ok_0.2@;
            &&& r->Ok_0.0.phys_bits == 0
            &&& r->Ok_0.1 == fd
            &&& caps[0].cap == 66
            &&& caps[0].args@[0] == max_vcpus
            &&& caps[1].cap == 121
            &&& caps[1].args@[0] == 24
            &&& forall|c: int| #![trigger caps[c]] 0 <= c < 2 ==> caps[c].flags == 0
            &&& forall|c: int, i: int|
                0 <= c < 2 && 1 <= i < 4 ==> #[trigger] caps[c].args@[i] == 0
        },
{
    if let Ok(_) = created {
        let caps = r->Ok_0.2@;
        assert forall|c: int, i: int| 0 <= c < 2 && 1 <= i < 4 implies #[trigger] caps[c].args@[i]
            == 0 by {
            assert(c == 0 || c == 1);
            assert(i == 1 || i == 2 || i == 3);
        }
    }
}

/// The type of machine that is asked for is number 2.
pub proof fn law_machine_type()
    ensures
        crate::vm::KVM_X86_TDX_VM == 2,
{
}

/// Every command has its number, and a command block holds the number and the argument and is
/// zero otherwise.
pub proof fn law_command_blocks(id: CmdId, number: u32, data: u64, cmd: Cmd)
    requires
        call_ensures(CmdId::number, (id,), number),
        call_ensures(Cmd::new, (id, data), cmd),
    ensures
        id is GetCapabilities ==> number == 0,
        id is InitVm ==> number == 1,
        id is InitVcpu ==> number == 2,
        id is ExtendMemory ==> number == 3,
        id is FinalizeVm ==> number == 4,
        cmd.id == number,
        cmd.data == data,
        cmd.flags == 0,
        cmd.error == 0,
        cmd._unused == 0,
{
}

/// The commands that name a block in memory, and the one that completes the launch.
pub proof fn law_commands_of_a_launch(
    vm: &TdxVm,
    address: u64,
    get_capabilities: Cmd,
    init_vm: Cmd,
    extend_memory: Cmd,
    finalize: Cmd,
)
    requires
        call_ensures(Cmd::get_capabilities, (address,), get_capabilities),
        call_ensures(Cmd::init_vm, (address,), init_vm),
        call_ensures(Cmd::extend_memory, (address,), extend_memory),
        call_ensures(TdxVm::finalize, (vm,), finalize),
    ensures
        get_capabilities == (Cmd { id: 0, flags: 0, data: address, error: 0, _unused: 0 }),
        init_vm == (Cmd { id: 1, flags: 0, data: address, error: 0, _unused: 0 }),
        extend_memory == (Cmd { id: 3, flags: 0, data: address, error: 0, _unused: 0 }),
        finalize == (Cmd { id: 4, flags: 0, data: 0, error: 0, _unused: 0 }),
{
}

/// A reply that is a value is passed on, and one that is an error number becomes an error with
/// that number.
pub proof fn law_kvm_result<T>(reply: Result<T, i32>, r: Result<T, TdxError>)
    requires
        call_ensures(kvm_result::<T>, (reply,), r),
    ensures
        r is Ok <==> reply is Ok,
        reply matches Ok(value) ==> r->Ok_0 == value,
        reply matches Err(code) ==> r->Err_0.code == code,
{
}

/// An error has the number that it was made from.
pub proof fn law_error_keeps_its_number(code: i32, e: TdxError)
    requires
        call_ensures(<TdxError as From<i32>>::from, (code,), e),
    ensures
        e.code == code,
{
}

/// A bare ioctl failed if and only if it returned a negative number, and then the error is that of
/// the thread, whatever number was returned.
pub proof fn law_ioctl_result(ret: i32, last_errno: i32, r: Result<(), TdxError>)
    requires
        call_ensures(ioctl_result, (ret, last_errno), r),
    ensures
        r is Ok <==> ret >= 0,
        r is Err ==> r->Err_0.code == last_errno,
{
}

/// A vCPU is had if and only if its CPUID table could be set, and it keeps its handle.
pub proof fn law_vcpu_from_handle<F>(fd: F, reply: Result<(), i32>, r: Result<TdxVcpu<F>, TdxError>)
    requires
        call_ensures(TdxVcpu::<F>::try_from, (fd, reply), r),
    ensures
        r is Ok <==> reply is Ok,
        r is Ok ==> r->Ok_0.fd == fd,
        reply matches Err(code) ==> r->Err_0.code == code,
{
}

/// A vCPU is initialised by one ioctl with one command, the hand-off block list being its argument,
/// by whichever of the two ways and whatever its handle.
pub proof fn law_vcpu_initialisation<F>(
    vcpu: &TdxVcpu<F>,
    hob_address: u64,
    by_vcpu: Ioctl<Cmd>,
    by_handle: Ioctl<Cmd>,
)
    requires
        call_ensures(TdxVcpu::<F>::init, (vcpu, hob_address), by_vcpu),
        call_ensures(init_vcpu, (hob_address,), by_handle),
    ensures
        by_vcpu == by_handle,
        by_vcpu.request == 0xc008_aeba,
        by_vcpu.arg == (Cmd { id: 2, flags: 0, data: hob_address, error: 0, _unused: 0 }),
{
}

/// A region of pages starts by being mapped, as it was asked for: its first action is to map the
/// pages from `gpa` on with the contents at `source_addr`, however many they are.
pub proof fn law_region_starts_by_being_mapped(
    vm: &TdxVm,
    source_addr: u64,
    gpa: u64,
    nr_pages: u64,
    extend: bool,
    region: MemRegion,
    same: MemRegion,
    action: MemRegionAction,
)
    requires
        call_ensures(TdxVm::init_mem_region_raw, (vm, source_addr, gpa, nr_pages, extend), region),
        call_ensures(MemRegion::start, (source_addr, gpa, nr_pages, extend), same),
        call_ensures(MemRegion::action, (&region,), action),
    ensures
        action == MemRegionAction::MapMemory(
            MemoryMapping { base_gf: gpa / 4096, nr_pages, flags: 0, source: source_addr },
        ),
        region.phase is Mapping,
        region.extend == extend,
        region.mapping == (MemoryMapping {
            base_gf: gpa / 4096,
            nr_pages,
            flags: 0,
            source: source_addr,
        }),
        region == same,
{
}

/// A section starts by being mapped, whole pages from its address on with its contents, and is to
/// be measured if and only if bit 0 of its attributes is set.
pub proof fn law_section_starts_by_being_mapped(
    vm: &TdxVm,
    section: &TdxFirmwareEntry,
    region: MemRegion,
    action: MemRegionAction,
)
    requires
        call_ensures(TdxVm::init_mem_region, (vm, section), region),
        call_ensures(MemRegion::action, (&region,), action),
    ensures
        action == MemRegionAction::MapMemory(
            MemoryMapping {
                base_gf: section.memory_address / 4096,
                nr_pages: section.memory_data_size / 4096,
                flags: 0,
                source: section.mem_ptr,
            },
        ),
        region.phase is Mapping,
        region.extend == (section.attributes % 2 == 1),
        region.mapping == (MemoryMapping {
            base_gf: section.memory_address / 4096,
            nr_pages: section.memory_data_size / 4096,
            flags: 0,
            source: section.mem_ptr,
        }),
{
    let a = section.attributes;
    assert((a & 1 != 0) == (a % 2 == 1)) by (bit_vector);
}

/// What a region asks for follows from its phase: to be mapped as it is, to be measured by its
/// pages alone, or to return.
pub proof fn law_region_asks_for_its_phase(region: MemRegion, action: MemRegionAction)
    requires
        call_ensures(MemRegion::action, (&region,), action),
    ensures
        region.phase is Mapping ==> action == MemRegionAction::MapMemory(region.mapping),
        region.phase is Extending ==> action == MemRegionAction::ExtendMeasurement(
            MemoryMapping {
                base_gf: region.mapping.base_gf,
                nr_pages: region.mapping.nr_pages,
                flags: 0,
                source: 0,
            },
        ),
        region.phase is Finished ==> action is Return && action->Return_0 is Ok,
        region.phase matches MemRegionPhase::Failed(e) ==> action is Return
            && action->Return_0 is Err && action->Return_0->Err_0.code == e.code,
{
}

/// A reply moves a region on: a mapping that was interrupted (error number 4 or 11) is still due;
/// one that failed otherwise has failed for good; one that succeeded leads to measuring if that
/// was asked for, else to the end. Measuring ends the region either way. What the region is about
/// never changes.
pub proof fn law_reply_moves_a_region_on(region: &mut MemRegion, reply: Result<(), i32>)
    requires
        call_ensures(MemRegion::step, (region, reply), ()),
    ensures
        call_requires(MemRegion::step, (region, reply)),
        final(region).mapping == old(region).mapping,
        final(region).extend == old(region).extend,
        old(region).phase is Mapping && reply is Ok && old(region).extend ==> final(region).phase is Extending,
        old(region).phase is Mapping && reply is Ok && !old(region).extend ==> final(region).phase is Finished,
        old(region).phase is Mapping && (reply == Err::<(), i32>(4) || reply == Err::<(), i32>(11))
            ==> final(region).phase is Mapping,
        old(region).phase is Mapping ==> (reply matches Err(code) ==> code != 4 && code != 11
            ==> final(region).phase is Failed && final(region).phase->Failed_0.code == code),
        old(region).phase is Extending && reply is Ok ==> final(region).phase is Finished,
        old(region).phase is Extending ==> (reply matches Err(code) ==> final(region).phase is Failed && final(region).phase->Failed_0.code == code),
        old(region).phase is Finished || old(region).phase is Failed ==> final(region).phase == old(region).phase,
{
}

/// Every flag of the attribute word is the bit, or the run of bits, that it is named for.
pub proof fn law_attribute_flags_by_value()
    ensures
        AttributesFlags::DEBUG == 0x1,
        AttributesFlags::TUD_RESERVED == 0xe,
        AttributesFlags::HGS_PLUS_PROF == 0x10,
        AttributesFlags::PERF_PROF == 0x20,
        AttributesFlags::PMT_PROF == 0x40,
        AttributesFlags::TUP_RESERVED == 0xff80,
        AttributesFlags::SEC_RESERVED_P == 0x7f_0000,
        AttributesFlags::SEC_RESERVED_N == 0x780_0000,
        AttributesFlags::LASS == 0x800_0000,
        AttributesFlags::SEPT_VE_DISABLE == 0x1000_0000,
        AttributesFlags::MIGRATABLE == 0x2000_0000,
        AttributesFlags::PKS == 0x4000_0000,
        AttributesFlags::KL == 0x8000_0000,
        AttributesFlags::SEC_EXP_RESERVED == 0xff_ffff_0000_0000,
        AttributesFlags::OTHER_RESERVED == 0x3fff_ffff_0000_0000,
        AttributesFlags::TPA == 0x4000_0000_0000_0000,
        AttributesFlags::PERFMON == 0x8000_0000_0000_0000,
{
    assert({
        &&& AttributesFlags::TUD_RESERVED == 0xe
        &&& AttributesFlags::HGS_PLUS_PROF == 0x10
        &&& AttributesFlags::PERF_PROF == 0x20
        &&& AttributesFlags::PMT_PROF == 0x40
        &&& AttributesFlags::TUP_RESERVED == 0xff80
        &&& AttributesFlags::SEC_RESERVED_P == 0x7f_0000
        &&& AttributesFlags::SEC_RESERVED_N == 0x780_0000
        &&& AttributesFlags::LASS == 0x800_0000
        &&& AttributesFlags::SEPT_VE_DISABLE == 0x1000_0000
        &&& AttributesFlags::MIGRATABLE == 0x2000_0000
        &&& AttributesFlags::PKS == 0x4000_0000
        &&& AttributesFlags::KL == 0x8000_0000
        &&& AttributesFlags::SEC_EXP_RESERVED == 0xff_ffff_0000_0000
        &&& AttributesFlags::OTHER_RESERVED == 0x3fff_ffff_0000_0000
        &&& AttributesFlags::TPA == 0x4000_0000_0000_0000
        &&& AttributesFlags::PERFMON == 0x8000_0000_0000_0000
    }) by (bit_vector);
}

/// Every flag of the feature word is the bit, or the run of bits, that it is named for.
pub proof fn law_feature_flags_by_value()
    ensures
        XFAMFlags::FP == 0x1,
        XFAMFlags::SSE == 0x2,
        XFAMFlags::AVX == 0x4,
        XFAMFlags::MPX == 0x18,
        XFAMFlags::AVX512 == 0xe0,
        XFAMFlags::PT == 0x100,
        XFAMFlags::PK == 0x200,
        XFAMFlags::ENQCMD == 0x400,
        XFAMFlags::CET == 0x1800,
        XFAMFlags::HDC == 0x2000,
        XFAMFlags::ULI == 0x4000,
        XFAMFlags::LBR == 0x8000,
        XFAMFlags::HWP == 0x1_0000,
        XFAMFlags::AMX == 0x6_0000,
{
    assert({
        &&& XFAMFlags::SSE == 0x2
        &&& XFAMFlags::AVX == 0x4
        &&& XFAMFlags::MPX == 0x18
        &&& XFAMFlags::AVX512 == 0xe0
        &&& XFAMFlags::PT == 0x100
        &&& XFAMFlags::PK == 0x200
        &&& XFAMFlags::ENQCMD == 0x400
        &&& XFAMFlags::CET == 0x1800
        &&& XFAMFlags::HDC == 0x2000
        &&& XFAMFlags::ULI == 0x4000
        &&& XFAMFlags::LBR == 0x8000
        &&& XFAMFlags::HWP == 0x1_0000
        &&& XFAMFlags::AMX == 0x6_0000
    }) by (bit_vector);
}

} // verus!
