//! Verified core of a WHPX-based micro-VM monitor: instruction decoding for
//! VM exits, ACPI table construction, interrupt routing and queuing, CPUID and
//! MSR emulation, boot-state layout and device-address allocation.

pub mod decode;
pub mod acpi;
pub mod irq;
pub mod inject;
pub mod exits;
pub mod cpuid;
pub mod boot;
pub mod config;
pub mod shm;
pub mod text;
pub mod options;
pub mod mmio;
pub mod vcpu_loop;
pub mod snapshot;
pub mod errors;
pub mod payload;
pub mod console;
pub mod stdin;
pub mod legacy;
pub mod cmdline;
