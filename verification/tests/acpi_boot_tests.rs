use krun_vmm::acpi::{
    acpi_checksum, append_acpi_header, append_u32_le, build_madt, build_rsdp, build_rsdt,
    finalize_acpi_table, table_addresses,
};
use krun_vmm::boot::{
    boot_registers, boot_state_writes, desired_windows_hyperv_synthetic_features,
    host_synthetic_features, partition_setup_plan, patch_apic_state_lint, program_lint_registers,
    set_apic_delivery_mode, BOOT_WRITE_COUNT, PDE_START, PDPTE_START, PML4_START,
};

fn byte_sum(bytes: &[u8]) -> u8 {
    bytes.iter().fold(0u8, |a, b| a.wrapping_add(*b))
}

#[test]
fn checksum_balances_bytes() {
    assert_eq!(acpi_checksum(&[]), 0);
    assert_eq!(acpi_checksum(&[1, 2, 3]), 0xfa);
    assert_eq!(byte_sum(&[1, 2, 3, 0xfa]), 0);
}

#[test]
fn u32_appended_little_endian() {
    let mut v = vec![9u8];
    append_u32_le(&mut v, 0x1122_3344);
    assert_eq!(v, vec![9, 0x44, 0x33, 0x22, 0x11]);
}

#[test]
fn header_layout() {
    let mut v = Vec::new();
    append_acpi_header(&mut v, b"TEST", 0x28);
    assert_eq!(v.len(), 36);
    assert_eq!(&v[0..4], b"TEST");
    assert_eq!(&v[4..8], &[0x28, 0, 0, 0]);
    assert_eq!(v[8], 1);
    assert_eq!(&v[10..16], b"LIBKRN");
    assert_eq!(&v[16..24], b"LIBKRUN ");
    assert_eq!(&v[28..32], b"KRUN");
    finalize_acpi_table(&mut v);
    assert_eq!(byte_sum(&v), 0);
}

#[test]
fn rsdp_rsdt_madt_checksums_and_fields() {
    let rsdp = build_rsdp(0x000e_0040);
    assert_eq!(&rsdp[0..8], b"RSD PTR ");
    assert_eq!(&rsdp[16..20], &[0x40, 0x00, 0x0e, 0x00]);
    assert_eq!(byte_sum(&rsdp), 0);

    let rsdt = build_rsdt(0x000e_0080);
    assert_eq!(rsdt.len(), 40);
    assert_eq!(&rsdt[36..40], &[0x80, 0x00, 0x0e, 0x00]);
    assert_eq!(byte_sum(&rsdt), 0);

    let madt = build_madt(2);
    assert_eq!(madt.len(), 36 + 8 + 16 + 12);
    assert_eq!(&madt[0..4], b"APIC");
    assert_eq!(&madt[44..52], &[0, 8, 0, 0, 1, 0, 0, 0]);
    assert_eq!(&madt[52..60], &[0, 8, 1, 1, 1, 0, 0, 0]);
    assert_eq!(&madt[60..64], &[1, 12, 3, 0]);
    assert_eq!(byte_sum(&madt), 0);

    let madt_max = build_madt(255);
    assert_eq!(madt_max[36 + 8 + 255 * 8 + 2], 255);
}

#[test]
fn acpi_tables_are_placed_apart() {
    assert_eq!(table_addresses(), (0x000e_0000, 0x000e_0040, 0x000e_0080));
}

fn read_u64(mem: &[u8], gpa: u64) -> u64 {
    let a = gpa as usize;
    u64::from_le_bytes(mem[a..a + 8].try_into().unwrap())
}

#[test]
fn test_write_boot_state_to_guest_populates_expected_entries() {
    let mut guest_mem = vec![0u8; 0x20_000];
    for w in boot_state_writes() {
        let a = w.gpa as usize;
        guest_mem[a..a + 8].copy_from_slice(&w.value.to_le_bytes());
    }

    assert_eq!(read_u64(&guest_mem, 0x500), 0);
    assert_eq!(read_u64(&guest_mem, 0x508), 0x00AF_9B00_0000_FFFF);
    assert_eq!(read_u64(&guest_mem, 0x520), 0);
    assert_eq!(read_u64(&guest_mem, PML4_START), PDPTE_START | 0x03);
    assert_eq!(read_u64(&guest_mem, PDPTE_START), PDE_START | 0x03);
    assert_eq!(read_u64(&guest_mem, PDE_START), 0x83);
    assert_eq!(read_u64(&guest_mem, PDE_START + 8), (1_u64 << 21) | 0x83);
    assert_eq!(read_u64(&guest_mem, PDE_START + 511 * 8), (511_u64 << 21) | 0x83);
    assert_eq!(read_u64(&guest_mem, PML4_START + 511 * 8), PDPTE_START | 0x03);
}

#[test]
fn test_write_boot_state_to_guest_fails_on_small_memory() {
    // A 4 KiB guest cannot hold the page tables at 0x9000 and above.
    let writes = boot_state_writes();
    assert_eq!(writes.len(), BOOT_WRITE_COUNT);
    assert!(writes.iter().any(|w| w.gpa + 8 > 0x1000));
    assert!(writes.iter().all(|w| w.gpa + 8 <= 0xC000));
}

#[test]
fn boot_registers_for_bsp_and_ap() {
    let bsp = boot_registers(0x100_0000, 0);
    assert_eq!(bsp.rip, 0x100_0000);
    assert_eq!(bsp.rsp, 0x8ff0);
    assert_eq!(bsp.rsi, 0x7000);
    assert_eq!(bsp.rflags, 2);
    assert_eq!(bsp.cr0, 0x8000_0001);
    assert_eq!(bsp.cr3, 0x9000);
    assert_eq!(bsp.cr4, 0x20);
    assert_eq!(bsp.efer, 0x500);
    assert_eq!(bsp.apic_base, 0xfee0_0900);
    assert_eq!(bsp.cs.selector, 0x08);
    assert_eq!(bsp.cs.attributes, 0xA09B);
    assert_eq!(bsp.ds.attributes, 0xC093);
    assert_eq!(bsp.tr.selector, 0x18);
    assert_eq!(bsp.gdtr.base, 0x500);
    assert_eq!(bsp.gdtr.limit, 31);
    assert_eq!(bsp.idtr.limit, 7);
    let ap = boot_registers(0x100_0000, 1);
    assert_eq!(ap.apic_base, 0xfee0_0800);
}

#[test]
fn delivery_mode_rewrites_lvt_entries() {
    assert_eq!(set_apic_delivery_mode(0x0001_0700, 7), 0x700);
    assert_eq!(set_apic_delivery_mode(0x0001_00ff, 4), 0x4ff);
    assert_eq!(program_lint_registers(0xffff_ffff_0001_0000, 0x0001_0000), (0x700, 0x400));
}

#[test]
fn apic_state_page_patch() {
    let mut page = vec![0u8; 4096];
    page[0x350..0x354].copy_from_slice(&0x0001_0000u32.to_le_bytes());
    page[0x360..0x364].copy_from_slice(&0x0001_0000u32.to_le_bytes());
    page[0xf0..0xf4].copy_from_slice(&0xffu32.to_le_bytes());
    assert_eq!(patch_apic_state_lint(&mut page, 0), Some(4096));
    assert_eq!(u32::from_le_bytes(page[0x350..0x354].try_into().unwrap()), 0x700);
    assert_eq!(u32::from_le_bytes(page[0x360..0x364].try_into().unwrap()), 0x400);
    assert_eq!(u32::from_le_bytes(page[0xf0..0xf4].try_into().unwrap()), 0x1ff);
    assert_eq!(patch_apic_state_lint(&mut page, 1024), Some(1024));
    assert_eq!(patch_apic_state_lint(&mut page, 9000), Some(4096));
    let mut short = vec![0u8; 0x360];
    assert_eq!(patch_apic_state_lint(&mut short, 0), None);
    assert!(short.iter().all(|b| *b == 0));
}

#[test]
fn partition_plan_follows_switches() {
    assert_eq!(desired_windows_hyperv_synthetic_features(), 0xB8F);
    assert_eq!(host_synthetic_features(0, 5), None);
    assert_eq!(host_synthetic_features(1, 5), Some(5));

    let plan = partition_setup_plan(2, true, Some(0xFFFF));
    assert_eq!(plan.processor_count, 2);
    assert!(plan.xapic_emulation && plan.cpuid_hypervisor_bit);
    assert_eq!(plan.synthetic_features, Some(0xB8F));
    assert_eq!(plan.extended_vm_exits, Some(3));
    assert_eq!(plan.msr_exit_bitmap, Some(1));
    assert_eq!(
        plan.msr_action_indices,
        vec![0x4000_0000, 0x4000_0001, 0x4000_0002, 0x4000_0010, 0x4000_0020, 0x4000_0022, 0x4000_0023, 0x4000_0073]
    );

    let plan = partition_setup_plan(1, true, Some(0x4000));
    assert!(plan.cpuid_hypervisor_bit);
    assert_eq!(plan.synthetic_features, None);
    let plan = partition_setup_plan(1, true, None);
    assert!(plan.cpuid_hypervisor_bit);
    assert_eq!(plan.synthetic_features, None);
    let plan = partition_setup_plan(1, false, Some(0xFFFF));
    assert!(!plan.xapic_emulation && !plan.cpuid_hypervisor_bit);
    assert_eq!(plan.synthetic_features, None);
    assert!(plan.msr_action_indices.is_empty());
    assert_eq!(plan.extended_vm_exits, None);
    assert_eq!(plan.msr_exit_bitmap, None);
}
