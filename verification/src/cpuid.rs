//! The CPUID table of the guest.
//!
//! KVM reports the CPUID leaves that it supports. The table that a trust domain is initialised
//! with takes the register values of most leaves from the host processor, drops the leaves that
//! say nothing, and holds no more leaves than the TDX module accepts.

use kvm_bindings::kvm_cpuid_entry2;
use vstd::prelude::*;

use crate::bits::bit;

verus! {

/// The most entries that a [`CpuId`] can hold.
pub const KVM_MAX_CPUID_ENTRIES: usize = 80;

/// The number of entry slots in the parameters of `KVM_TDX_INIT_VM`.
pub const INIT_VM_CPUID_SLOTS: usize = 256;

/// The leaf with the feature flags of the processor.
pub const FEATURE_LEAF: u32 = 0x1;

/// The leaf that describes the extended state (XSAVE) features.
pub const XSTATE_LEAF: u32 = 0xd;

/// The position of the x2APIC flag in register ECX of [`FEATURE_LEAF`].
pub const X2APIC_BIT: u32 = 21;

/// The four registers that the CPUID instruction fills.
#[derive(Clone, Copy, Debug, PartialEq, Eq)]
pub struct CpuidRegs {
    pub eax: u32,
    pub ebx: u32,
    pub ecx: u32,
    pub edx: u32,
}

/// What the CPUID instruction is asked for: a leaf in EAX and a sub-leaf in ECX.
#[derive(Clone, Copy, Debug, PartialEq, Eq)]
pub struct HostQuery {
    pub function: u32,
    pub index: u32,
}

/// One leaf of a CPUID table, field by field as KVM lays it out.
#[derive(Clone, Copy, Debug, PartialEq, Eq)]
pub struct CpuidEntry {
    pub function: u32,
    pub index: u32,
    pub flags: u32,
    pub eax: u32,
    pub ebx: u32,
    pub ecx: u32,
    pub edx: u32,
    pub padding: [u32; 3],
}

/// A CPUID table as KVM takes and returns it: `kvm_bindings::CpuId`, a list of at most
/// [`KVM_MAX_CPUID_ENTRIES`] entries. Its contents are named by [`cpuid_entries`].
#[verifier::external_body]
pub struct CpuId {
    inner: kvm_bindings::CpuId,
}

/// The entries of a CPUID table, in order.
pub uninterp spec fn cpuid_entries(cpuid: CpuId) -> Seq<CpuidEntry>;

/// The type of the error that `kvm_bindings::CpuId::from_entries` returns.
#[verifier::external_type_specification]
#[verifier::external_body]
pub struct ExFamError(vmm_sys_util::fam::Error);

/// Calls `kvm_bindings::CpuId::as_slice`, which hands out the entries of the table in order.
/// Each is copied field by field. There are at most [`KVM_MAX_CPUID_ENTRIES`], since only
/// `kvm_bindings::CpuId::from_entries` makes a table, and no table changes its length.
#[verifier::external_body]
fn as_slice(cpuid: &CpuId) -> (entries: Vec<CpuidEntry>)
    ensures
        entries@ == cpuid_entries(*cpuid),
        entries@.len() <= KVM_MAX_CPUID_ENTRIES,
{
    cpuid.inner.as_slice().iter().map(|e| CpuidEntry {
        function: e.function,
        index: e.index,
        flags: e.flags,
        eax: e.eax,
        ebx: e.ebx,
        ecx: e.ecx,
        edx: e.edx,
        padding: e.padding,
    }).collect()
}

/// Calls `kvm_bindings::CpuId::as_mut_slice` and assigns to one element of the slice: the entry
/// at `i` becomes `e`, the other entries and the length of the table stay.
#[verifier::external_body]
fn as_mut_slice_set(cpuid: &mut CpuId, i: usize, e: CpuidEntry)
    requires
        i < cpuid_entries(*old(cpuid)).len(),
    ensures
        cpuid_entries(*final(cpuid)) == cpuid_entries(*old(cpuid)).update(i as int, e),
{
    cpuid.inner.as_mut_slice()[i] = kvm_cpuid_entry2 {
        function: e.function,
        index: e.index,
        flags: e.flags,
        eax: e.eax,
        ebx: e.ebx,
        ecx: e.ecx,
        edx: e.edx,
        padding: e.padding,
    };
}

/// Calls `kvm_bindings::CpuId::from_entries`, which makes a table with the given entries in the
/// given order, and fails if and only if there are more than [`KVM_MAX_CPUID_ENTRIES`].
#[verifier::external_body]
fn from_slice(entries: &Vec<CpuidEntry>) -> (r: Result<CpuId, vmm_sys_util::fam::Error>)
    ensures
        r is Ok <==> entries@.len() <= KVM_MAX_CPUID_ENTRIES,
        r is Ok ==> cpuid_entries(r->Ok_0) == entries@,
{
    let raw: Vec<kvm_cpuid_entry2> = entries.iter().map(|e| kvm_cpuid_entry2 {
        function: e.function,
        index: e.index,
        flags: e.flags,
        eax: e.eax,
        ebx: e.ebx,
        ecx: e.ecx,
        edx: e.edx,
        padding: e.padding,
    }).collect();
    kvm_bindings::CpuId::from_entries(&raw).map(|inner| CpuId { inner })
}

/// A CPUID table would have to hold more than [`KVM_MAX_CPUID_ENTRIES`] entries.
#[derive(Clone, Copy, Debug, PartialEq, Eq)]
pub struct SizeLimitExceeded;

impl View for CpuId {
    type V = Seq<CpuidEntry>;

    open spec fn view(&self) -> Seq<CpuidEntry> {
        cpuid_entries(*self)
    }
}

impl CpuId {
    /// The table with the given entries.
    pub fn from_entries(entries: &Vec<CpuidEntry>) -> (r: Result<CpuId, SizeLimitExceeded>)
        ensures
            r is Ok <==> entries@.len() <= KVM_MAX_CPUID_ENTRIES,
            r is Ok ==> r->Ok_0@ == entries@,
    {
        match from_slice(entries) {
            Ok(cpuid) => Ok(cpuid),
            Err(_) => Err(SizeLimitExceeded),
        }
    }

    /// The entries of the table.
    pub fn entries(&self) -> (r: Vec<CpuidEntry>)
        ensures
            r@ == self@,
            r@.len() <= KVM_MAX_CPUID_ENTRIES,
    {
        as_slice(self)
    }
}

// ---------------------------------------------------------------------------------------------
// x2APIC
// ---------------------------------------------------------------------------------------------

/// `e` with the x2APIC flag set if it is a feature leaf, else `e` itself.
pub open spec fn with_x2apic(e: CpuidEntry) -> CpuidEntry {
    if e.function == FEATURE_LEAF {
        CpuidEntry { ecx: e.ecx | (1u32 << X2APIC_BIT), ..e }
    } else {
        e
    }
}

/// Sets the x2APIC flag in every feature leaf of the table, before the table is handed to a vCPU.
pub fn set_cpuid_with_x2apic(cpuid: &mut CpuId)
    ensures
        final(cpuid)@ == old(cpuid)@.map_values(|e: CpuidEntry| with_x2apic(e)),
        final(cpuid)@.len() <= KVM_MAX_CPUID_ENTRIES,
{
    let entries: Vec<CpuidEntry> = as_slice(cpuid);
    let n: usize = entries.len();
    let mut i: usize = 0;
    while i < n
        invariant
            n == entries@.len(),
            i <= n,
            entries@ == old(cpuid)@,
            cpuid@.len() == n,
            forall|j: int| 0 <= j < i ==> cpuid@[j] == with_x2apic(#[trigger] entries@[j]),
            forall|j: int| i <= j < n ==> cpuid@[j] == #[trigger] entries@[j],
        decreases n - i,
    {
        let e: CpuidEntry = entries[i];
        if e.function == FEATURE_LEAF {
            as_mut_slice_set(cpuid, i, CpuidEntry { ecx: e.ecx | bit(X2APIC_BIT), ..e });
        }
        i += 1;
    }
    assert(cpuid@ =~= old(cpuid)@.map_values(|e: CpuidEntry| with_x2apic(e)));
}

/// Setting the x2APIC flag twice is setting it once.
pub proof fn law_x2apic_is_idempotent(entries: Seq<CpuidEntry>)
    ensures
        entries.map_values(|e: CpuidEntry| with_x2apic(e)).map_values(
            |e: CpuidEntry| with_x2apic(e),
        ) == entries.map_values(|e: CpuidEntry| with_x2apic(e)),
{
    assert forall|e: CpuidEntry| #[trigger] with_x2apic(with_x2apic(e)) == with_x2apic(e) by {
        let x = e.ecx;
        assert((x | (1u32 << 21u32)) | (1u32 << 21u32) == x | (1u32 << 21u32)) by (bit_vector);
    }
    let once = entries.map_values(|e: CpuidEntry| with_x2apic(e));
    assert(once.map_values(|e: CpuidEntry| with_x2apic(e)) =~= once);
}

/// The x2APIC flag is set in a feature leaf afterwards. No other bit of the leaf changes, and no
/// other leaf does.
pub proof fn law_x2apic_sets_one_bit(e: CpuidEntry, other: u32)
    requires
        other < 32,
    ensures
        e.function == FEATURE_LEAF ==> with_x2apic(e).ecx & (1u32 << X2APIC_BIT) != 0,
        other != X2APIC_BIT ==> with_x2apic(e).ecx & (1u32 << other) == e.ecx & (1u32 << other),
        with_x2apic(e) == (CpuidEntry { ecx: with_x2apic(e).ecx, ..e }),
        e.function != FEATURE_LEAF ==> with_x2apic(e) == e,
{
    crate::bits::law_set_bit(e.ecx, X2APIC_BIT, other);
}

// ---------------------------------------------------------------------------------------------
// The table that a trust domain is initialised with
// ---------------------------------------------------------------------------------------------

/// Whether the registers of a leaf are read from the host processor. They are for all leaves but
/// the basic one (leaf 0, sub-leaf 0) and the extended state leaves, which stay as KVM reports
/// them.
pub open spec fn reads_host(e: CpuidEntry) -> bool {
    !((e.function == 0 && e.index == 0) || e.function == XSTATE_LEAF)
}

/// What to ask the host processor about a leaf, if anything.
pub open spec fn host_query(e: CpuidEntry) -> Option<HostQuery> {
    if reads_host(e) {
        Some(HostQuery { function: e.function, index: e.index })
    } else {
        None
    }
}

/// `host` holds one answer for each leaf that is read from the host, and none for the others.
pub open spec fn answers(host: Seq<Option<CpuidRegs>>, entries: Seq<CpuidEntry>) -> bool {
    &&& host.len() == entries.len()
    &&& forall|i: int|
        #![trigger host[i]]
        0 <= i < host.len() ==> (host[i] is Some <==> reads_host(entries[i]))
}

/// `e` with the registers of `regs`, where there are any.
pub open spec fn with_regs(e: CpuidEntry, regs: Option<CpuidRegs>) -> CpuidEntry {
    match regs {
        Some(r) => CpuidEntry { eax: r.eax, ebx: r.ebx, ecx: r.ecx, edx: r.edx, ..e },
        None => e,
    }
}

/// The leaves of `entries` with the registers that the host answered.
pub open spec fn patched(
    entries: Seq<CpuidEntry>,
    host: Seq<Option<CpuidRegs>>,
) -> Seq<CpuidEntry> {
    Seq::new(entries.len(), |i: int| with_regs(entries[i], host[i]))
}

/// Whether a leaf stays in the table: one of its registers says something, or it is a leaf whose
/// zeros are meaningful (cache parameters, extended state, SGX, processor trace).
pub open spec fn is_kept(e: CpuidEntry) -> bool {
    ||| e.eax != 0
    ||| e.ebx != 0
    ||| e.ecx != 0
    ||| e.edx != 0
    ||| e.function == 0x4
    ||| e.function == 0xd
    ||| e.function == 0x12
    ||| e.function == 0x14
}

/// The leaves of `entries` that stay in the table, in order.
pub open spec fn kept(entries: Seq<CpuidEntry>) -> Seq<CpuidEntry> {
    entries.filter(|e: CpuidEntry| is_kept(e))
}

/// How many leaves the guest gets when the TDX module accepts `nr_cpuid_configs`: at least one.
pub open spec fn entry_limit(nr_cpuid_configs: usize) -> int {
    if nr_cpuid_configs == 0 {
        1
    } else {
        nr_cpuid_configs as int
    }
}

/// The first `limit` elements, or all if there are fewer.
pub open spec fn at_most(entries: Seq<CpuidEntry>, limit: int) -> Seq<CpuidEntry> {
    if entries.len() <= limit {
        entries
    } else {
        entries.take(limit)
    }
}

/// The entry of an unused slot.
pub open spec fn empty_entry() -> CpuidEntry {
    CpuidEntry {
        function: 0,
        index: 0,
        flags: 0,
        eax: 0,
        ebx: 0,
        ecx: 0,
        edx: 0,
        padding: [0u32, 0u32, 0u32],
    }
}

/// `entries` followed by as many empty entries as it takes to fill the slots.
pub open spec fn padded(entries: Seq<CpuidEntry>) -> Seq<CpuidEntry> {
    if entries.len() < INIT_VM_CPUID_SLOTS {
        entries + Seq::new((INIT_VM_CPUID_SLOTS - entries.len()) as nat, |i: int| empty_entry())
    } else {
        entries
    }
}

/// The entries that `KVM_TDX_INIT_VM` is given: the leaves that KVM supports, with the host's
/// registers, without those that say nothing, cut to the limit and padded to the slots.
pub open spec fn init_vm_entries(
    supported: Seq<CpuidEntry>,
    host: Seq<Option<CpuidRegs>>,
    nr_cpuid_configs: usize,
) -> Seq<CpuidEntry> {
    padded(at_most(kept(patched(supported, host)), entry_limit(nr_cpuid_configs)))
}

/// For each leaf that KVM supports, what to ask the host processor about it.
pub fn host_queries(supported: &CpuId) -> (r: Vec<Option<HostQuery>>)
    ensures
        r@ == supported@.map_values(|e: CpuidEntry| host_query(e)),
        r@.len() <= KVM_MAX_CPUID_ENTRIES,
{
    let entries: Vec<CpuidEntry> = as_slice(supported);
    let mut r: Vec<Option<HostQuery>> = Vec::new();
    let mut i: usize = 0;
    while i < entries.len()
        invariant
            i <= entries@.len(),
            entries@ == supported@,
            r@.len() == i,
            forall|j: int| 0 <= j < i ==> r@[j] == host_query(#[trigger] entries@[j]),
        decreases entries@.len() - i,
    {
        let e: CpuidEntry = entries[i];
        if (e.function == 0 && e.index == 0) || e.function == XSTATE_LEAF {
            r.push(None);
        } else {
            r.push(Some(HostQuery { function: e.function, index: e.index }));
        }
        i += 1;
    }
    assert(r@ =~= supported@.map_values(|e: CpuidEntry| host_query(e)));
    r
}

/// The leaves of `entries` with the registers that the host answered, those that say nothing
/// left out.
fn patch_and_keep(entries: &Vec<CpuidEntry>, host: &Vec<Option<CpuidRegs>>) -> (r: Vec<CpuidEntry>)
    requires
        host@.len() == entries@.len(),
    ensures
        r@ == kept(patched(entries@, host@)),
{
    let ghost all = patched(entries@, host@);
    let mut r: Vec<CpuidEntry> = Vec::new();
    let mut i: usize = 0;
    assert(kept(all.take(0)) =~= Seq::empty()) by {
        reveal(Seq::filter);
    }
    while i < entries.len()
        invariant
            host@.len() == entries@.len(),
            i <= entries@.len(),
            all == patched(entries@, host@),
            r@ == kept(all.take(i as int)),
        decreases entries@.len() - i,
    {
        let mut e: CpuidEntry = entries[i];
        if let Some(regs) = host[i] {
            e.eax = regs.eax;
            e.ebx = regs.ebx;
            e.ecx = regs.ecx;
            e.edx = regs.edx;
        }
        assert(e == all[i as int]);
        proof {
            reveal(Seq::filter);
            assert(all.take(i + 1).drop_last() =~= all.take(i as int));
        }
        if e.eax != 0 || e.ebx != 0 || e.ecx != 0 || e.edx != 0
            || matches!(e.function, 0x4 | 0xd | 0x12 | 0x14) {
            r.push(e);
        }
        i += 1;
    }
    assert(all.take(entries@.len() as int) =~= all);
    r
}

/// Fills the slots behind the entries with empty entries.
fn pad(entries: &mut Vec<CpuidEntry>)
    ensures
        final(entries)@ == padded(old(entries)@),
{
    while entries.len() < INIT_VM_CPUID_SLOTS
        invariant
            padded(entries@) == padded(old(entries)@),
            entries@.len() >= INIT_VM_CPUID_SLOTS ==> entries@ == padded(entries@),
        decreases INIT_VM_CPUID_SLOTS - entries@.len(),
    {
        let ghost before = entries@;
        entries.push(CpuidEntry {
            function: 0,
            index: 0,
            flags: 0,
            eax: 0,
            ebx: 0,
            ecx: 0,
            edx: 0,
            padding: [0, 0, 0],
        });
        assert(padded(entries@) =~= padded(before)) by {
            assert(entries@.last().padding =~= empty_entry().padding);
        }
    }
}

/// The entries for `KVM_TDX_INIT_VM`.
pub(crate) fn init_vm_table(
    supported: &CpuId,
    host: &Vec<Option<CpuidRegs>>,
    nr_cpuid_configs: usize,
) -> (r: Vec<CpuidEntry>)
    requires
        answers(host@, supported@),
    ensures
        r@ == init_vm_entries(supported@, host@, nr_cpuid_configs),
        r@.len() == INIT_VM_CPUID_SLOTS,
{
    let entries: Vec<CpuidEntry> = as_slice(supported);
    proof {
        law_slots_hold_leaves_then_nothing(supported@, host@, nr_cpuid_configs);
    }
    let mut r: Vec<CpuidEntry> = patch_and_keep(&entries, host);
    let limit: usize = if nr_cpuid_configs > 1 {
        nr_cpuid_configs
    } else {
        1
    };
    if r.len() > limit {
        r.truncate(limit);
    }
    pad(&mut r);
    r
}

/// The table for the vCPUs: as many of the entries for `KVM_TDX_INIT_VM` as the limit allows.
pub(crate) fn vcpu_table(entries: &Vec<CpuidEntry>, nr_cpuid_configs: usize) -> (r: CpuId)
    requires
        entry_limit(nr_cpuid_configs) <= KVM_MAX_CPUID_ENTRIES,
        entry_limit(nr_cpuid_configs) <= entries@.len(),
    ensures
        r@ == entries@.take(entry_limit(nr_cpuid_configs)),
{
    let limit: usize = if nr_cpuid_configs > 1 {
        nr_cpuid_configs
    } else {
        1
    };
    let mut first: Vec<CpuidEntry> = Vec::new();
    let mut i: usize = 0;
    while i < limit
        invariant
            i <= limit <= entries@.len(),
            first@ == entries@.take(i as int),
        decreases limit - i,
    {
        first.push(entries[i]);
        i += 1;
        assert(first@ =~= entries@.take(i as int));
    }
    let made = from_slice(&first);
    assert(made is Ok);
    made.unwrap()
}

/// The leaves that are read from the host have the host's registers, the others stay as KVM
/// reports them, and nothing but the registers changes.
pub proof fn law_host_registers_go_where_asked_for(
    supported: Seq<CpuidEntry>,
    host: Seq<Option<CpuidRegs>>,
    i: int,
)
    requires
        answers(host, supported),
        0 <= i < supported.len(),
    ensures
        patched(supported, host).len() == supported.len(),
        !reads_host(supported[i]) ==> patched(supported, host)[i] == supported[i],
        reads_host(supported[i]) ==> {
            let e = patched(supported, host)[i];
            host[i] == Some(CpuidRegs { eax: e.eax, ebx: e.ebx, ecx: e.ecx, edx: e.edx })
        },
        ({
            let e = patched(supported, host)[i];
            supported[i] == CpuidEntry {
                eax: supported[i].eax,
                ebx: supported[i].ebx,
                ecx: supported[i].ecx,
                edx: supported[i].edx,
                ..e
            }
        }),
{
    assert(host[i] is Some <==> reads_host(supported[i]));
}

/// The leaves that stay are leaves of the table, in the order of the table, and no leaf is passed
/// over.
pub proof fn law_kept_leaves_are_in_order(entries: Seq<CpuidEntry>) -> (positions: Seq<int>)
    ensures
        positions.len() == kept(entries).len(),
        forall|k: int|
            #![trigger positions[k]]
            0 <= k < positions.len() ==> 0 <= positions[k] < entries.len() && kept(entries)[k]
                == entries[positions[k]] && is_kept(kept(entries)[k]),
        forall|j: int, k: int|
            #![trigger positions[j], positions[k]]
            0 <= j < k < positions.len() ==> positions[j] < positions[k],
        forall|i: int|
            0 <= i < entries.len() && is_kept(#[trigger] entries[i]) ==> positions.contains(i),
    decreases entries.len(),
{
    reveal(Seq::filter);
    if entries.len() == 0 {
        Seq::empty()
    } else {
        let earlier = entries.drop_last();
        let positions = law_kept_leaves_are_in_order(earlier);
        if is_kept(entries.last()) {
            let r = positions.push(entries.len() - 1);
            assert(kept(entries) == kept(earlier).push(entries.last()));
            assert forall|k: int| #![trigger r[k]] 0 <= k < r.len() implies 0 <= r[k]
                < entries.len() && kept(entries)[k] == entries[r[k]] && is_kept(kept(entries)[k]) by {
                if k < positions.len() {
                    assert(r[k] == positions[k]);
                    assert(kept(entries)[k] == kept(earlier)[k]);
                }
            }
            assert forall|j: int, k: int| #![trigger r[j], r[k]] 0 <= j < k < r.len() implies r[j]
                < r[k] by {
                assert(r[j] == positions[j]);
                if k < positions.len() {
                    assert(r[k] == positions[k]);
                }
            }
            assert forall|i: int|
                0 <= i < entries.len() && is_kept(#[trigger] entries[i]) implies r.contains(i) by {
                if i < earlier.len() {
                    assert(earlier[i] == entries[i]);
                    let k = choose|k: int| 0 <= k < positions.len() && positions[k] == i;
                    assert(r[k] == i);
                } else {
                    assert(r[positions.len() as int] == i);
                }
            }
            r
        } else {
            assert(kept(entries) == kept(earlier));
            assert forall|k: int| #![trigger positions[k]] 0 <= k < positions.len() implies 0
                <= positions[k] < entries.len() && kept(entries)[k] == entries[positions[k]]
                && is_kept(kept(entries)[k]) by {
                assert(kept(entries)[k] == earlier[positions[k]]);
            }
            assert forall|i: int|
                0 <= i < entries.len() && is_kept(
                    #[trigger] entries[i],
                ) implies positions.contains(i) by {
                assert(earlier[i] == entries[i]);
            }
            positions
        }
    }
}

/// A leaf that says something stays, and one that says nothing does not, unless its zeros mean
/// something.
pub proof fn law_only_silent_leaves_are_dropped(entries: Seq<CpuidEntry>, i: int)
    requires
        0 <= i < entries.len(),
    ensures
        kept(entries).contains(entries[i]) <==> is_kept(entries[i]),
{
    let p = |e: CpuidEntry| is_kept(e);
    if is_kept(entries[i]) {
        assert(p(entries[i]));
        entries.lemma_filter_contains(p, i);
    } else if kept(entries).contains(entries[i]) {
        let k = choose|k: int| 0 <= k < kept(entries).len() && kept(entries)[k] == entries[i];
        entries.lemma_filter_pred(p, k);
    }
}

/// The parameters have all their slots filled, and no more, whatever the limit, as long as KVM
/// supports no more leaves than there are slots. They start with the leaves that stay, as many as
/// the limit allows, and the rest is empty.
pub proof fn law_slots_hold_leaves_then_nothing(
    supported: Seq<CpuidEntry>,
    host: Seq<Option<CpuidRegs>>,
    nr_cpuid_configs: usize,
)
    ensures
        ({
            let slots = init_vm_entries(supported, host, nr_cpuid_configs);
            let leaves = kept(patched(supported, host));
            let limit = entry_limit(nr_cpuid_configs);
            let used = if leaves.len() <= limit {
                leaves.len() as int
            } else {
                limit
            };
            &&& slots.len() >= INIT_VM_CPUID_SLOTS
            &&& limit <= INIT_VM_CPUID_SLOTS || supported.len() <= INIT_VM_CPUID_SLOTS
                ==> slots.len() == INIT_VM_CPUID_SLOTS
            &&& used <= slots.len()
            &&& slots.take(used) == leaves.take(used)
            &&& forall|i: int| used <= i < slots.len() ==> #[trigger] slots[i] == empty_entry()
        }),
{
    let slots = init_vm_entries(supported, host, nr_cpuid_configs);
    let leaves = kept(patched(supported, host));
    let limit = entry_limit(nr_cpuid_configs);
    let used = if leaves.len() <= limit {
        leaves.len() as int
    } else {
        limit
    };
    patched(supported, host).lemma_filter_len(|e: CpuidEntry| is_kept(e));
    assert(slots.take(used) =~= leaves.take(used));
}

/// No leaf that stays is lost as long as the limit allows for all of them.
pub proof fn law_no_leaf_is_lost_within_the_limit(
    supported: Seq<CpuidEntry>,
    host: Seq<Option<CpuidRegs>>,
    nr_cpuid_configs: usize,
    i: int,
)
    requires
        answers(host, supported),
        kept(patched(supported, host)).len() <= entry_limit(nr_cpuid_configs),
        0 <= i < supported.len(),
        is_kept(patched(supported, host)[i]),
    ensures
        init_vm_entries(supported, host, nr_cpuid_configs).contains(patched(supported, host)[i]),
{
    let leaves = kept(patched(supported, host));
    let leaf = patched(supported, host)[i];
    law_only_silent_leaves_are_dropped(patched(supported, host), i);
    let k = choose|k: int| 0 <= k < leaves.len() && leaves[k] == leaf;
    let slots = init_vm_entries(supported, host, nr_cpuid_configs);
    assert(slots[k] == leaf);
}

/// The vCPUs get exactly as many entries as the limit says, and they are the first ones that the
/// machine was initialised with. For every limit that a CPUID table can meet, the parameters hold
/// that many.
pub proof fn law_vcpus_agree_with_the_machine(
    supported: Seq<CpuidEntry>,
    host: Seq<Option<CpuidRegs>>,
    nr_cpuid_configs: usize,
    i: int,
)
    requires
        entry_limit(nr_cpuid_configs) <= KVM_MAX_CPUID_ENTRIES,
        0 <= i < entry_limit(nr_cpuid_configs),
    ensures
        ({
            let slots = init_vm_entries(supported, host, nr_cpuid_configs);
            let vcpu = slots.take(entry_limit(nr_cpuid_configs));
            &&& entry_limit(nr_cpuid_configs) <= slots.len()
            &&& vcpu.len() == entry_limit(nr_cpuid_configs)
            &&& vcpu[i] == slots[i]
            &&& forall|j: int|
                entry_limit(nr_cpuid_configs) <= j < slots.len() ==> #[trigger] slots[j]
                    == empty_entry()
        }),
{
    law_slots_hold_leaves_then_nothing(supported, host, nr_cpuid_configs);
}

} // verus!
