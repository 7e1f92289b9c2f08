//! Laws of the CPUID tables: of the machine, of its vCPUs, and of the questions to the host.

use vstd::prelude::*;

use crate::capabilities::TdxCapabilities;
use crate::cmd::TdxError;
use crate::cpuid::{
    host_queries, set_cpuid_with_x2apic, CpuId, CpuidEntry, CpuidRegs, HostQuery, SizeLimitExceeded,
};
use crate::vm::{InitVm, TdxVm};

verus! {

/// A table can be made of up to 80 entries and no more, and gives them back as they were.
pub proof fn law_table_gives_back_its_entries(
    entries: &Vec<CpuidEntry>,
    made: Result<CpuId, SizeLimitExceeded>,
    back: Vec<CpuidEntry>,
)
    requires
        call_ensures(CpuId::from_entries, (entries,), made),
        made is Ok ==> call_ensures(CpuId::entries, (&made->Ok_0,), back),
    ensures
        made is Ok <==> entries@.len() <= 80,
        made is Ok ==> made->Ok_0@ == entries@,
        made is Ok ==> back@ == entries@,
{
}

/// What a table gives out is its view, 80 entries at most.
pub proof fn law_table_gives_out_its_view(cpuid: &CpuId, entries: Vec<CpuidEntry>)
    requires
        call_ensures(CpuId::entries, (cpuid,), entries),
    ensures
        entries@ == cpuid@,
        entries@.len() <= 80,
{
}

/// For every leaf there is one question or none, in the order of the table: none for the basic
/// leaf and for leaf 0xd, else one for just that leaf and sub-leaf.
pub proof fn law_host_is_asked_for_each_leaf(supported: &CpuId, r: Vec<Option<HostQuery>>)
    requires
        call_ensures(host_queries, (supported,), r),
    ensures
        r@.len() == supported@.len(),
        forall|i: int|
            #![trigger r@[i]]
            0 <= i < supported@.len() ==> {
                let e = supported@[i];
                if e.function == 0 && e.index == 0 || e.function == 0xd {
                    r@[i] is None
                } else {
                    r@[i] == Some(HostQuery { function: e.function, index: e.index })
                }
            },
{
}

/// In every leaf with number 1, bit 21 of ECX is set afterwards and the other bits are what they
/// were. Nothing else changes, and no entry comes or goes.
pub proof fn law_x2apic_is_set_in_leaf_one(cpuid: &mut CpuId)
    requires
        call_ensures(set_cpuid_with_x2apic, (cpuid,), ()),
    ensures
        final(cpuid)@.len() == old(cpuid)@.len(),
        forall|i: int|
            #![trigger final(cpuid)@[i]]
            0 <= i < old(cpuid)@.len() ==> {
                let before = old(cpuid)@[i];
                let after = final(cpuid)@[i];
                &&& after == CpuidEntry { ecx: after.ecx, ..before }
                &&& before.function != 1 ==> after.ecx == before.ecx
                &&& before.function == 1 && before.ecx / 0x20_0000 % 2 == 1 ==> after.ecx
                    == before.ecx
                &&& before.function == 1 && before.ecx / 0x20_0000 % 2 == 0 ==> after.ecx
                    == before.ecx + 0x20_0000
            },
{
    assert forall|i: int| #![trigger final(cpuid)@[i]] 0 <= i < old(cpuid)@.len() implies {
        let before = old(cpuid)@[i];
        let after = final(cpuid)@[i];
        &&& after == CpuidEntry { ecx: after.ecx, ..before }
        &&& before.function != 1 ==> after.ecx == before.ecx
        &&& before.function == 1 && before.ecx / 0x20_0000 % 2 == 1 ==> after.ecx == before.ecx
        &&& before.function == 1 && before.ecx / 0x20_0000 % 2 == 0 ==> after.ecx == before.ecx
            + 0x20_0000
    } by {
        let x = old(cpuid)@[i].ecx;
        assert({
            &&& x / 0x20_0000 % 2 == 1 ==> x | (1u32 << 21u32) == x
            &&& x / 0x20_0000 % 2 == 0 ==> x | (1u32 << 21u32) == x + 0x20_0000
        }) by (bit_vector);
    }
}

/// The parameters of the machine can be had for every table and the answers to its questions, one
/// for each leaf but the basic one and those with number 0xd. They hold, in 256 slots, the leaves
/// at the returned positions of the table, in the order of the table, and then nothing but zeros.
///
/// Each leaf keeps its number, sub-leaf, flags and padding. Its registers are those that the host
/// answered, where it was asked. Every leaf that is there has a register that is not zero, or its
/// number is 0x4, 0xd, 0x12 or 0x14. There are no more leaves than the module accepts, or one
/// where it accepts none. A leaf that is not there has four zero registers and another number, or
/// comes after as many leaves as are allowed.
pub proof fn law_parameters_hold_the_leaves_that_speak(
    vm: &TdxVm,
    supported: &CpuId,
    host: &Vec<Option<CpuidRegs>>,
    caps: &TdxCapabilities,
    init: InitVm,
) -> (positions: Seq<int>)
    requires
        host@.len() == supported@.len(),
        forall|i: int|
            #![trigger host@[i]]
            0 <= i < host@.len() ==> (host@[i] is None <==> supported@[i].function == 0
                && supported@[i].index == 0 || supported@[i].function == 0xd),
        call_ensures(TdxVm::init_vm, (vm, supported, host, caps), init),
    ensures
        call_requires(TdxVm::init_vm, (vm, supported, host, caps)),
        init.cpuid_entries@.len() == 256,
        positions.len() <= 256,
        positions.len() <= if caps.nr_cpuid_configs == 0 {
            1
        } else {
            caps.nr_cpuid_configs as int
        },
        forall|k: int|
            #![trigger positions[k]]
            0 <= k < positions.len() ==> 0 <= positions[k] < supported@.len(),
        forall|j: int, k: int|
            #![trigger positions[j], positions[k]]
            0 <= j < k < positions.len() ==> positions[j] < positions[k],
        forall|k: int|
            #![trigger positions[k]]
            0 <= k < positions.len() ==> {
                let slot = init.cpuid_entries@[k];
                let leaf = supported@[positions[k]];
                let answer = host@[positions[k]];
                &&& slot.function == leaf.function
                &&& slot.index == leaf.index
                &&& slot.flags == leaf.flags
                &&& slot.padding == leaf.padding
                &&& if leaf.function == 0 && leaf.index == 0 || leaf.function == 0xd {
                    slot == leaf
                } else {
                    answer == Some(
                        CpuidRegs { eax: slot.eax, ebx: slot.ebx, ecx: slot.ecx, edx: slot.edx },
                    )
                }
                &&& slot.eax != 0 || slot.ebx != 0 || slot.ecx != 0 || slot.edx != 0
                    || slot.function == 0x4 || slot.function == 0xd || slot.function == 0x12
                    || slot.function == 0x14
            },
        forall|k: int|
            #![trigger init.cpuid_entries@[k]]
            positions.len() <= k < 256 ==> {
                let slot = init.cpuid_entries@[k];
                &&& slot.function == 0 && slot.index == 0 && slot.flags == 0
                &&& slot.eax == 0 && slot.ebx == 0 && slot.ecx == 0 && slot.edx == 0
                &&& slot.padding@ == seq![0u32, 0u32, 0u32]
            },
        forall|i: int|
            #![trigger supported@[i]]
            0 <= i < supported@.len() && !positions.contains(i) ==> {
                ||| {
                    let leaf = supported@[i];
                    &&& leaf.function != 0x4 && leaf.function != 0xd && leaf.function != 0x12
                        && leaf.function != 0x14
                    &&& if leaf.function == 0 && leaf.index == 0 {
                        leaf.eax == 0 && leaf.ebx == 0 && leaf.ecx == 0 && leaf.edx == 0
                    } else {
                        host@[i] == Some(CpuidRegs { eax: 0, ebx: 0, ecx: 0, edx: 0 })
                    }
                }
                ||| {
                    &&& positions.len() == if caps.nr_cpuid_configs == 0 {
                        1
                    } else {
                        caps.nr_cpuid_configs as int
                    }
                    &&& forall|k: int| 0 <= k < positions.len() ==> #[trigger] positions[k] < i
                }
            },
{
    let s = supported@;
    let h = host@;
    let nr = caps.nr_cpuid_configs;
    let leaves = crate::cpuid::patched(s, h);
    let kept = crate::cpuid::kept(leaves);
    let all = crate::cpuid::law_kept_leaves_are_in_order(leaves);
    let limit: int = if nr == 0 {
        1
    } else {
        nr as int
    };
    let used: int = if kept.len() <= limit {
        kept.len() as int
    } else {
        limit
    };
    let positions = all.take(used);
    let slots = init.cpuid_entries@;
    assert(crate::cpuid::answers(h, s));
    crate::cpuid::law_slots_hold_leaves_then_nothing(s, h, nr);
    assert forall|k: int| 0 <= k < used implies slots[k] == leaves[#[trigger] positions[k]] by {
        assert(positions[k] == all[k]);
        assert(slots.take(used)[k] == slots[k]);
        assert(kept.take(used)[k] == kept[k]);
    }
    assert forall|i: int|
        #![trigger supported@[i]]
        0 <= i < s.len() && !positions.contains(i) && crate::cpuid::is_kept(
            leaves[i],
        ) implies positions.len() == limit && forall|k: int|
        0 <= k < positions.len() ==> #[trigger] positions[k] < i by {
        assert(all.contains(i));
        let j = choose|j: int| 0 <= j < all.len() && all[j] == i;
        if j < used {
            assert(positions[j] == i);
        }
        assert forall|k: int| 0 <= k < positions.len() implies #[trigger] positions[k] < i by {
            assert(positions[k] == all[k]);
        }
    }
    assert([0u32, 0u32, 0u32]@ =~= seq![0u32, 0u32, 0u32]);
    positions
}

/// As long as the module accepts as many leaves as the table has, every leaf that says something
/// is in the parameters: whichever of the four registers is not zero, and also with four zeros if
/// the number of the leaf is 0x4, 0xd, 0x12 or 0x14.
pub proof fn law_leaf_that_speaks_is_in_the_parameters(
    vm: &TdxVm,
    supported: &CpuId,
    host: &Vec<Option<CpuidRegs>>,
    caps: &TdxCapabilities,
    init: InitVm,
    i: int,
    leaf: CpuidEntry,
)
    requires
        host@.len() == supported@.len(),
        forall|i: int|
            #![trigger host@[i]]
            0 <= i < host@.len() ==> (host@[i] is None <==> supported@[i].function == 0
                && supported@[i].index == 0 || supported@[i].function == 0xd),
        call_ensures(TdxVm::init_vm, (vm, supported, host, caps), init),
        supported@.len() <= caps.nr_cpuid_configs,
        0 <= i < supported@.len(),
        leaf == supported@[i] && host@[i] is None || host@[i] is Some && leaf == (CpuidEntry {
            eax: host@[i]->Some_0.eax,
            ebx: host@[i]->Some_0.ebx,
            ecx: host@[i]->Some_0.ecx,
            edx: host@[i]->Some_0.edx,
            ..supported@[i]
        }),
        leaf.eax != 0 || leaf.ebx != 0 || leaf.ecx != 0 || leaf.edx != 0 || leaf.function == 0x4
            || leaf.function == 0xd || leaf.function == 0x12 || leaf.function == 0x14,
    ensures
        init.cpuid_entries@.contains(leaf),
{
    let positions = law_parameters_hold_the_leaves_that_speak(vm, supported, host, caps, init);
    if !positions.contains(i) {
        assert(positions.len() == caps.nr_cpuid_configs);
        lemma_increasing_below(positions, i);
    }
    let k = choose|k: int| 0 <= k < positions.len() && positions[k] == i;
    assert(init.cpuid_entries@[k] == leaf);
}

/// Increasing positions that are all below `i` are at most `i` in number.
proof fn lemma_increasing_below(positions: Seq<int>, i: int)
    requires
        0 <= i,
        forall|k: int| 0 <= k < positions.len() ==> 0 <= #[trigger] positions[k] < i,
        forall|j: int, k: int|
            #![trigger positions[j], positions[k]]
            0 <= j < k < positions.len() ==> positions[j] < positions[k],
    ensures
        positions.len() <= i,
    decreases positions.len(),
{
    if positions.len() > 0 {
        lemma_increasing_below(positions.drop_last(), positions.last());
    }
}

/// The vCPUs get a table if and only if the machine was initialised. It can be asked for unless
/// the module accepts more leaves than a table or the parameters hold. It has as many entries as
/// the module accepts, or one where it accepts none, and they are the first of the parameters. A
/// refusal is passed on with its number.
pub proof fn law_vcpu_table_is_the_start_of_the_parameters(
    vm: &TdxVm,
    init: &InitVm,
    caps: &TdxCapabilities,
    reply: Result<(), i32>,
    r: Result<CpuId, TdxError>,
)
    requires
        reply is Ok ==> caps.nr_cpuid_configs <= 80,
        reply is Ok ==> 1 <= init.cpuid_entries@.len(),
        reply is Ok ==> caps.nr_cpuid_configs <= init.cpuid_entries@.len(),
        call_ensures(TdxVm::init_vm_result, (vm, init, caps, reply), r),
    ensures
        call_requires(TdxVm::init_vm_result, (vm, init, caps, reply)),
        r is Ok <==> reply is Ok,
        reply matches Err(code) ==> r->Err_0.code == code,
        r is Ok ==> r->Ok_0@.len() == if caps.nr_cpuid_configs == 0 {
            1
        } else {
            caps.nr_cpuid_configs as int
        },
        r is Ok ==> forall|i: int|
            0 <= i < r->Ok_0@.len() ==> #[trigger] r->Ok_0@[i] == init.cpuid_entries@[i],
{
}

} // verus!
