# krun_vmm

The decision-making core of a micro-VM monitor for the Windows Hypervisor
Platform (WHPX), written in Verus: every function in `src/` carries a
`requires`/`ensures` contract that Verus proves.

## Layout

- `src/` — the verified library.
  - `decode`, `exits`: decoding of the instructions behind MMIO exits, and
    what the vCPU does on port-I/O, MMIO, CPUID and MSR exits.
  - `irq`, `inject`: routing of interrupt lines, the queue of pending PIC
    interrupts, and the decision to take, deliver or re-queue an interrupt.
  - `cpuid`: emulated CPUID leaves and Hyper-V MSRs.
  - `acpi`, `boot`: ACPI tables, boot page tables and registers, local APIC
    set-up and the partition's properties.
  - `shm`, `mmio`, `legacy`, `payload`, `console`, `cmdline`: guest-memory
    windows, MMIO slots, legacy ports, the choice and unpacking of the
    kernel, console ports and the kernel command line.
  - `vcpu_loop`, `snapshot`, `stdin`: the vCPU event loop as a state machine,
    snapshot decisions, and the console input buffer.
  - `config`, `errors`, `options`, `text`: configuration records, error
    messages, and the parsing of settings.
- `tests/` — tests that run the library with the outside crates linked.
- `app/` — the parts that touch the host: reading settings from the
  environment, guest-memory mapping, kernel and initramfs files, snapshot
  files, and the vCPU, watchdog and stdin threads. The threads drive the
  library's decisions through traits whose hypervisor implementation is not
  part of this crate.

The public `lemma_*` proof functions state the library's laws, such as
non-overlapping memory windows and ACPI tables, read-after-write for MSRs
and registers, and FIFO order of buffered input.
