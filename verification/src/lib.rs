//! Launching Intel TDX virtual machines through KVM.
//!
//! The crate computes what a launch hands to the kernel and what it makes of the kernel's
//! replies: command blocks, ioctl numbers, memory mapping requests, the CPUID table of the guest,
//! and the retry and roll-back protocols around the calls. It performs no system call itself.
//! Wherever an operation needs one, the crate returns the request as a plain value and takes the
//! reply back as a plain value.

pub mod align;
pub mod bits;
pub mod capabilities;
pub mod cmd;
pub mod cpuid;
pub mod flags;
pub mod guest_memory;
pub mod ioctl;
pub mod laws;
pub mod linux_ioctls;
pub mod memory_region;
pub mod mmap;
pub mod tdvf;
pub mod vcpu;
pub mod vm;
