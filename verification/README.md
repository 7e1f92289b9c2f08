# tdx_launch

Launching Intel TDX virtual machines through KVM.

- `src/` is the verified library. It builds the commands, ioctl requests, memory mappings and CPUID
  tables of a launch, interprets the kernel's replies, and runs the retry and roll-back protocols
  as state machines. Every function carries a contract that Verus proves; the laws that relate
  several functions are public proof functions named `law_*`.
- `app/` makes the system calls. It hands the library's requests to the kernel and the kernel's
  replies back to the library.
- `tests/` runs the library on concrete values, and holds its constants against `libc` and
  `kvm-bindings`.

Trusted, not proved: the specification of `vmm_sys_util::ioctl::ioctl_expr` in `src/ioctl.rs`, and
the three accessors of `kvm_bindings::CpuId` in `src/cpuid.rs`.
