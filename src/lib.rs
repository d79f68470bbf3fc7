//! Core of a lightweight virtual machine monitor: the pre-boot resource store, the
//! request controllers, the kernel command line, the MMIO device allocator, the vCPU
//! command protocol, the event dispatch table and the snapshot file format.
//!
//! Everything here is plain computation over values; the host side (KVM handles,
//! threads, files, the event loop) hands its results in and performs the actions
//! that the functions here decide.

pub mod error;
pub mod numfmt;
pub mod cmdline;
pub mod machine_config;
pub mod rate_limiter;
pub mod drive;
pub mod net;
pub mod bytes;
pub mod mmio;
pub mod boot;
pub mod memory;
pub mod vmm;
pub mod snapshot;
pub mod vcpu;
pub mod kvm_context;
pub mod timestamp;
pub mod dispatch;
pub mod api;
pub mod cpuid;
