//! Sections of the TDX virtual firmware.

use vstd::prelude::*;

verus! {

/// The attribute of sections whose contents are added to the measurement of the trust domain.
pub const TDVF_SECTION_ATTRIBUTES_MR_EXTEND: u32 = 1;

/// A section of the firmware image: where it goes in guest memory and where it is loaded.
#[derive(Clone, Copy, Debug, PartialEq, Eq)]
pub struct TdxFirmwareEntry {
    /// The guest physical address of the section.
    pub memory_address: u64,
    /// The size of the section in guest memory, in bytes.
    pub memory_data_size: u64,
    /// The attributes of the section.
    pub attributes: u32,
    /// The host virtual address of the section's contents.
    pub mem_ptr: u64,
}

} // verus!
