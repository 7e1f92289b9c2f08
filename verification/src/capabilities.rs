//! What the TDX module of the host offers.

use vstd::prelude::*;

use crate::flags::{AttributesFlags, XFAMFlags};

verus! {

/// The bit of a guest physical address width word that stands for 48 bits.
pub const TDX_CAP_GPAW_48: u32 = 1 << 0;

/// The bit of a guest physical address width word that stands for 52 bits.
pub const TDX_CAP_GPAW_52: u32 = 1 << 1;

/// A CPUID leaf that can be configured for a trust domain.
#[derive(Clone, Copy, Debug, PartialEq, Eq)]
pub struct CpuidConfig {
    pub leaf: u32,
    pub sub_leaf: u32,
    pub eax: u32,
    pub ebx: u32,
    pub ecx: u32,
    pub edx: u32,
}

/// The answer to the command that asks for capabilities, as the kernel fills it.
#[derive(Clone, Debug, PartialEq, Eq)]
pub struct Capabilities {
    pub attrs_fixed0: u64,
    pub attrs_fixed1: u64,
    pub xfam_fixed0: u64,
    pub xfam_fixed1: u64,
    pub supported_gpaw: u32,
    pub nr_cpuid_configs: u32,
    pub cpuid_configs: Vec<CpuidConfig>,
}

/// Reflects the Intel TDX module capabilities and configuration and CPU
/// capabilities
#[derive(Clone, Copy, Debug, PartialEq, Eq)]
pub struct Attributes {
    pub fixed0: AttributesFlags,
    pub fixed1: AttributesFlags,
}

/// Determines the set of extended features available for use by the guest TD
#[derive(Clone, Copy, Debug, PartialEq, Eq)]
pub struct Xfam {
    pub fixed0: XFAMFlags,
    pub fixed1: XFAMFlags,
}

/// Provides information about the Intel TDX module
#[derive(Clone, Debug, PartialEq, Eq)]
pub struct TdxCapabilities {
    pub attributes: Attributes,
    pub xfam: Xfam,

    /// supported Guest Physical Address Width
    pub supported_gpaw: u32,

    /// how many entries the platform will actually accept
    pub nr_cpuid_configs: usize,
    /// the list of configurable leaves (capacity only; may be longer than nr_cpuid_configs)
    pub cpuid_configs: Vec<CpuidConfig>,
}

/// `caps` says what the raw answer `raw` says: the flag words reduced to the known flags, the
/// rest unchanged.
pub open spec fn describes(caps: TdxCapabilities, raw: Capabilities) -> bool {
    &&& caps.attributes.fixed0@ == raw.attrs_fixed0 & AttributesFlags::ALL
    &&& caps.attributes.fixed1@ == raw.attrs_fixed1 & AttributesFlags::ALL
    &&& caps.xfam.fixed0@ == raw.xfam_fixed0 & XFAMFlags::ALL
    &&& caps.xfam.fixed1@ == raw.xfam_fixed1 & XFAMFlags::ALL
    &&& caps.supported_gpaw == raw.supported_gpaw
    &&& caps.nr_cpuid_configs == raw.nr_cpuid_configs
    &&& caps.cpuid_configs@ == raw.cpuid_configs@
}

impl TdxCapabilities {
    /// Reads the raw answer.
    pub fn from_raw(raw: Capabilities) -> (caps: TdxCapabilities)
        ensures
            describes(caps, raw),
    {
        TdxCapabilities {
            attributes: Attributes {
                fixed0: AttributesFlags::from_bits_truncate(raw.attrs_fixed0),
                fixed1: AttributesFlags::from_bits_truncate(raw.attrs_fixed1),
            },
            xfam: Xfam {
                fixed0: XFAMFlags::from_bits_truncate(raw.xfam_fixed0),
                fixed1: XFAMFlags::from_bits_truncate(raw.xfam_fixed1),
            },
            supported_gpaw: raw.supported_gpaw,
            nr_cpuid_configs: raw.nr_cpuid_configs as usize,
            cpuid_configs: raw.cpuid_configs,
        }
    }
}

} // verus!
