//! The attribute and extended feature flags of a trust domain.

use vstd::prelude::*;

verus! {

/// The attributes of a trust domain: a set of the flags named here.
#[derive(Clone, Copy, Debug, PartialEq, Eq)]
pub struct AttributesFlags {
    bits: u64,
}

impl AttributesFlags {
    // TD Under Debug (TUD) group

    /// Bit 0. Guest TD runs in off-TD debug mode
    pub const DEBUG: u64 = 1;

    /// Bits 3:1. Reserved for future TUD flags
    pub const TUD_RESERVED: u64 = 0x7 << 1;

    // TD Under Profiling (TUP) group

    /// Bit 4. The TD participates in HGS+ operation
    pub const HGS_PLUS_PROF: u64 = 1 << 4;

    /// Bit 5. The TD participates in system profiling using performance monitoring
    /// counters
    pub const PERF_PROF: u64 = 1 << 5;

    /// Bit 6. The TD participates in system profiling using core out-of-band
    /// telemetry
    pub const PMT_PROF: u64 = 1 << 6;

    /// Bits 15:7. Reserved for future TUP flags
    pub const TUP_RESERVED: u64 = 0x1FF << 7;

    // Security (SEC) group

    /// Bits 22:16. Reserved for future SEC flags that will indicate positive impact on
    /// TD security
    pub const SEC_RESERVED_P: u64 = 0x7F << 16;

    /// Bits 23:26. Reserved for future SEC flags that will indicate negative impact on
    /// TD security
    pub const SEC_RESERVED_N: u64 = 0xF << 23;

    /// Bit 27. TD is allowed to use Linear Address Space Separation
    pub const LASS: u64 = 1 << 27;

    /// Bit 28. Disable EPT violation conversion to #VE on guest TD access of
    /// PENDING pages
    pub const SEPT_VE_DISABLE: u64 = 1 << 28;

    /// Bit 29. TD is migratable (using a Migration TD)
    pub const MIGRATABLE: u64 = 1 << 29;

    /// Bit 30. TD is allowed to use Supervisor Protection Keys
    pub const PKS: u64 = 1 << 30;

    /// Bit 31. TD is allowed to use Key Locker
    pub const KL: u64 = 1 << 31;

    // RESERVED group

    /// Bits 55:32. Reserved for future expansion of the SEC group
    pub const SEC_EXP_RESERVED: u64 = 0xFFFFFF << 32;

    // OTHER group

    /// Bits 61:32. Reserved for future OTHER flags
    pub const OTHER_RESERVED: u64 = 0x3FFFFFFF << 32;

    /// Bit 62. The TD is a TDX Connect Provisioning Agent
    pub const TPA: u64 = 1 << 62;

    /// Bit 63. TD is allowed to use Perfmon and PERF_METRICS capabilities
    pub const PERFMON: u64 = 1 << 63;

    /// All flags together.
    pub const ALL: u64 = Self::DEBUG | Self::TUD_RESERVED | Self::HGS_PLUS_PROF | Self::PERF_PROF
        | Self::PMT_PROF | Self::TUP_RESERVED | Self::SEC_RESERVED_P | Self::SEC_RESERVED_N
        | Self::LASS | Self::SEPT_VE_DISABLE | Self::MIGRATABLE | Self::PKS | Self::KL
        | Self::SEC_EXP_RESERVED | Self::OTHER_RESERVED | Self::TPA | Self::PERFMON;
}

impl View for AttributesFlags {
    type V = u64;

    closed spec fn view(&self) -> u64 {
        self.bits
    }
}

impl AttributesFlags {
    /// The set of the flags whose bits are set in `bits`. Bits that belong to no flag are dropped.
    pub fn from_bits_truncate(bits: u64) -> (r: Self)
        ensures
            r@ == bits & Self::ALL,
    {
        AttributesFlags { bits: bits & Self::ALL }
    }

    /// The bits of the flags in the set.
    pub fn bits(&self) -> (r: u64)
        ensures
            r == self@,
    {
        self.bits
    }
}

/// Every bit of the attribute word belongs to a flag, so no attribute bit is ever dropped.
pub proof fn law_attribute_flags_cover_the_word(bits: u64)
    ensures
        AttributesFlags::ALL == u64::MAX,
        bits & AttributesFlags::ALL == bits,
{
    assert(AttributesFlags::ALL == 0xffff_ffff_ffff_ffff) by (bit_vector);
    assert(bits & 0xffff_ffff_ffff_ffff == bits) by (bit_vector);
}

/// The extended features that a trust domain can use: a set of the flags named here.
#[derive(Clone, Copy, Debug, PartialEq, Eq)]
pub struct XFAMFlags {
    bits: u64,
}

impl XFAMFlags {
    /// Bit 0. Always enabled
    pub const FP: u64 = 1;

    /// Bit 1. Always enabled
    pub const SSE: u64 = 1 << 1;

    /// Bit 2. Execution is directly controlled by XCR0
    pub const AVX: u64 = 1 << 2;

    /// Bits 4:3. Being deprecated
    pub const MPX: u64 = 0x3 << 3;

    /// Bits 7:5. Execution is directly controlled by XCR0. May be enabled only if
    /// AVX is enabled
    pub const AVX512: u64 = 0x7 << 5;

    /// Bit 8. Execution is controlled by IA32_RTIT_CTL
    pub const PT: u64 = 1 << 8;

    /// Bit 9. Execution is controlled by CR4.PKE
    pub const PK: u64 = 1 << 9;

    /// Bit 10. Execution is controlled by IA32_PASID MSR
    pub const ENQCMD: u64 = 1 << 10;

    /// Bits 12:11. Execution is controlled by CR4.CET
    pub const CET: u64 = 0x3 << 11;

    /// Bit 13. Hardware Duty Cycle is controlled by package-scope IA32_PKG_HDC_CTL
    /// and LP-scope IA32_PM_CTL1 MSRs
    pub const HDC: u64 = 1 << 13;

    /// Bit 14. Execution is controlled by CR4.UINTR
    pub const ULI: u64 = 1 << 14;

    /// Bit 15. Execution is controlled by IA32_LBR_CTL
    pub const LBR: u64 = 1 << 15;

    /// Bit 16. Execution of Hardware-Controlled Performance State is controlled by
    /// IA32_HWP MSRs
    pub const HWP: u64 = 1 << 16;

    /// Bits 18:17. Advanced Matrix Extensions (AMX) is directly controlled by XCR0
    pub const AMX: u64 = 0x3 << 17;

    /// All flags together.
    pub const ALL: u64 = Self::FP | Self::SSE | Self::AVX | Self::MPX | Self::AVX512 | Self::PT
        | Self::PK | Self::ENQCMD | Self::CET | Self::HDC | Self::ULI | Self::LBR | Self::HWP
        | Self::AMX;
}

impl View for XFAMFlags {
    type V = u64;

    closed spec fn view(&self) -> u64 {
        self.bits
    }
}

impl XFAMFlags {
    /// The set of the flags whose bits are set in `bits`. Bits that belong to no flag are dropped.
    pub fn from_bits_truncate(bits: u64) -> (r: Self)
        ensures
            r@ == bits & Self::ALL,
    {
        XFAMFlags { bits: bits & Self::ALL }
    }

    /// The bits of the flags in the set.
    pub fn bits(&self) -> (r: u64)
        ensures
            r == self@,
    {
        self.bits
    }
}

/// The extended feature flags are the low nineteen bits: a feature word keeps its value below
/// bit 19, and what lies above is dropped.
pub proof fn law_xfam_flags_are_the_low_bits(bits: u64)
    ensures
        XFAMFlags::ALL == 0x7ffff,
        bits & XFAMFlags::ALL == bits % 0x8_0000,
{
    assert(XFAMFlags::ALL == 0x7ffff) by (bit_vector);
    assert(bits & 0x7ffff == bits % 0x8_0000) by (bit_vector);
}

/// Truncation keeps flags only, and truncating twice is truncating once.
pub proof fn law_truncation_keeps_flags_only(bits: u64, all: u64)
    ensures
        (bits & all) & !all == 0,
        (bits & all) & all == bits & all,
        bits & !all == 0 ==> bits & all == bits,
{
    assert((bits & all) & !all == 0) by (bit_vector);
    assert((bits & all) & all == bits & all) by (bit_vector);
    assert(bits & !all == 0 ==> bits & all == bits) by (bit_vector);
}

} // verus!
