//! Minimal ACPI tables (RSDP, RSDT and a MADT) for the guest firmware area.

use vstd::prelude::*;

verus! {

pub const RSDP_ADDR: u64 = 0x000e_0000;

pub const RSDT_ADDR: u64 = 0x000e_0040;

pub const MADT_ADDR: u64 = 0x000e_0080;

pub const MADT_LOCAL_APIC_ADDR: u32 = 0xfee0_0000;

pub const MADT_IO_APIC_ADDR: u32 = 0xfec0_0000;

pub const MADT_PCAT_COMPAT: u32 = 1;

/// Sum of the bytes of `s`, as an integer.
pub open spec fn byte_sum(s: Seq<u8>) -> int
    decreases s.len(),
{
    if s.len() == 0 {
        0
    } else {
        byte_sum(s.drop_last()) + s.last()
    }
}

/// The byte that makes the sum of `s` plus itself a multiple of 256.
pub open spec fn checksum_spec(s: Seq<u8>) -> u8 {
    ((256 - byte_sum(s) % 256) % 256) as u8
}

/// Little-endian bytes of a 32-bit value.
pub open spec fn le32(v: u32) -> Seq<u8> {
    seq![
        (v % 0x100) as u8,
        ((v / 0x100) % 0x100) as u8,
        ((v / 0x1_0000) % 0x100) as u8,
        ((v / 0x100_0000) % 0x100) as u8,
    ]
}

pub open spec fn oem_id() -> Seq<u8> {
    seq![0x4cu8, 0x49, 0x42, 0x4b, 0x52, 0x4e]
}

pub open spec fn oem_table_id() -> Seq<u8> {
    seq![0x4cu8, 0x49, 0x42, 0x4b, 0x52, 0x55, 0x4e, 0x20]
}

pub open spec fn creator_id() -> Seq<u8> {
    seq![0x4bu8, 0x52, 0x55, 0x4e]
}

/// The 36-byte system description table header: signature, length,
/// revision 1, checksum 0, OEM id, OEM table id, OEM revision 1, creator id,
/// creator revision 1.
pub open spec fn acpi_header_spec(signature: Seq<u8>, length: u32) -> Seq<u8> {
    signature + le32(length) + seq![1u8, 0u8] + oem_id() + oem_table_id() + le32(1) + creator_id()
        + le32(1)
}

/// `s` with byte 9 (the checksum field of a table header) set to the checksum of `s`.
pub open spec fn finalize_spec(s: Seq<u8>) -> Seq<u8> {
    s.update(9, checksum_spec(s))
}

pub open spec fn rsdp_unchecked(rsdt_addr: u32) -> Seq<u8> {
    seq![0x52u8, 0x53, 0x44, 0x20, 0x50, 0x54, 0x52, 0x20, 0u8] + oem_id() + seq![0u8] + le32(
        rsdt_addr,
    )
}

/// The ACPI 1.0 RSDP: "RSD PTR ", checksum at byte 8, OEM id, revision 0 and
/// the RSDT address.
pub open spec fn rsdp_spec(rsdt_addr: u32) -> Seq<u8> {
    rsdp_unchecked(rsdt_addr).update(8, checksum_spec(rsdp_unchecked(rsdt_addr)))
}

/// The RSDT with a single entry pointing at the MADT.
pub open spec fn rsdt_spec(madt_addr: u32) -> Seq<u8> {
    finalize_spec(acpi_header_spec(seq![0x52u8, 0x53, 0x44, 0x54], 40) + le32(madt_addr))
}

/// One processor-local-APIC entry: type 0, length 8, processor id and APIC id
/// both `cpu_id`, flags 1 (enabled).
pub open spec fn lapic_entry(cpu_id: u8) -> Seq<u8> {
    seq![0u8, 8u8, cpu_id, cpu_id] + le32(1)
}

/// Local-APIC entries for processors `0..n`.
pub open spec fn lapic_entries(n: nat) -> Seq<u8>
    decreases n,
{
    if n == 0 {
        Seq::empty()
    } else {
        lapic_entries((n - 1) as nat) + lapic_entry((n - 1) as u8)
    }
}

pub open spec fn madt_length(num_cpus: u8) -> u32 {
    (36 + 8 + 8 * num_cpus + 12) as u32
}

/// The I/O APIC entry: type 1, length 12, id `num_cpus + 1` (saturating),
/// reserved 0, address, global system interrupt base 0.
pub open spec fn ioapic_entry(num_cpus: u8) -> Seq<u8> {
    seq![1u8, 12u8, if num_cpus == 255 { 255u8 } else { (num_cpus + 1) as u8 }, 0u8] + le32(
        MADT_IO_APIC_ADDR,
    ) + le32(0)
}

pub open spec fn madt_unchecked(num_cpus: u8) -> Seq<u8> {
    acpi_header_spec(seq![0x41u8, 0x50, 0x49, 0x43], madt_length(num_cpus)) + le32(
        MADT_LOCAL_APIC_ADDR,
    ) + le32(MADT_PCAT_COMPAT) + lapic_entries(num_cpus as nat) + ioapic_entry(num_cpus)
}

/// The MADT describing `num_cpus` enabled local APICs and one I/O APIC.
pub open spec fn madt_spec(num_cpus: u8) -> Seq<u8> {
    finalize_spec(madt_unchecked(num_cpus))
}

proof fn lemma_byte_sum_push(s: Seq<u8>, b: u8)
    ensures
        byte_sum(s.push(b)) == byte_sum(s) + b,
{
    assert(s.push(b).drop_last() =~= s);
}

proof fn lemma_byte_sum_nonneg(s: Seq<u8>)
    ensures
        byte_sum(s) >= 0,
    decreases s.len(),
{
    if s.len() > 0 {
        lemma_byte_sum_nonneg(s.drop_last());
    }
}

/// Replacing byte `i` changes the sum by the difference of the two bytes.
proof fn lemma_byte_sum_update(s: Seq<u8>, i: int, b: u8)
    requires
        0 <= i < s.len(),
    ensures
        byte_sum(s.update(i, b)) == byte_sum(s) - s[i] + b,
    decreases s.len(),
{
    if i == s.len() - 1 {
        assert(s.update(i, b).drop_last() =~= s.drop_last());
    } else {
        lemma_byte_sum_update(s.drop_last(), i, b);
        assert(s.update(i, b).drop_last() =~= s.drop_last().update(i, b));
    }
}

/// A table whose checksum byte was 0 sums to a multiple of 256 once the
/// checksum is stored there.
pub proof fn lemma_checksum_balances(s: Seq<u8>, i: int)
    requires
        0 <= i < s.len(),
        s[i] == 0,
    ensures
        byte_sum(s.update(i, checksum_spec(s))) % 256 == 0,
{
    lemma_byte_sum_update(s, i, checksum_spec(s));
    lemma_byte_sum_nonneg(s);
    let t = byte_sum(s);
    assert((t + (256 - t % 256) % 256) % 256 == 0) by (nonlinear_arith)
        requires
            t >= 0,
    ;
}

/// The ACPI checksum of `bytes`: the byte that makes their sum wrap to zero.
pub fn acpi_checksum(bytes: &[u8]) -> (c: u8)
    ensures
        c == checksum_spec(bytes@),
{
    let mut acc: u8 = 0;
    let mut i: usize = 0;
    while i < bytes.len()
        invariant
            i <= bytes@.len(),
            acc == byte_sum(bytes@.subrange(0, i as int)) % 256,
        decreases bytes@.len() - i,
    {
        proof {
            assert(bytes@.subrange(0, i + 1) =~= bytes@.subrange(0, i as int).push(bytes@[i as int]));
            lemma_byte_sum_push(bytes@.subrange(0, i as int), bytes@[i as int]);
            lemma_byte_sum_nonneg(bytes@.subrange(0, i as int));
            let t = byte_sum(bytes@.subrange(0, i as int));
            let b = bytes@[i as int];
            assert(vstd::wrapping::u8_specs::wrapping_add(acc, b) == (t + b) % 256) by (nonlinear_arith)
                requires
                    acc == t % 256,
                    t >= 0,
                    0 <= b < 256,
                    vstd::wrapping::u8_specs::wrapping_add(acc, b) == if acc + b > 255 {
                        acc + b - 256
                    } else {
                        acc + b
                    },
            ;
        }
        acc = acc.wrapping_add(bytes[i]);
        i = i + 1;
    }
    assert(bytes@.subrange(0, bytes@.len() as int) =~= bytes@);
    proof {
        lemma_byte_sum_nonneg(bytes@);
    }
    0u8.wrapping_sub(acc)
}

/// Appends the little-endian bytes of `value`.
pub fn append_u32_le(bytes: &mut Vec<u8>, value: u32)
    ensures
        final(bytes)@ == old(bytes)@ + le32(value),
{
    let w0: u32 = value & 0xff;
    let w1: u32 = (value >> 8u32) & 0xff;
    let w2: u32 = (value >> 16u32) & 0xff;
    let w3: u32 = (value >> 24u32) & 0xff;
    assert(w0 == value % 0x100 && w1 == (value / 0x100) % 0x100 && w2 == (value / 0x1_0000) % 0x100
        && w3 == (value / 0x100_0000) % 0x100) by (bit_vector)
        requires
            w0 == value & 0xff,
            w1 == (value >> 8u32) & 0xff,
            w2 == (value >> 16u32) & 0xff,
            w3 == (value >> 24u32) & 0xff,
    ;
    bytes.push(w0 as u8);
    bytes.push(w1 as u8);
    bytes.push(w2 as u8);
    bytes.push(w3 as u8);
    assert(bytes@ =~= old(bytes)@ + le32(value));
}

fn append_bytes(bytes: &mut Vec<u8>, tail: &[u8])
    ensures
        final(bytes)@ == old(bytes)@ + tail@,
{
    let mut i: usize = 0;
    while i < tail.len()
        invariant
            i <= tail@.len(),
            bytes@ == old(bytes)@ + tail@.subrange(0, i as int),
        decreases tail@.len() - i,
    {
        bytes.push(tail[i]);
        i = i + 1;
        assert(bytes@ =~= old(bytes)@ + tail@.subrange(0, i as int));
    }
    assert(tail@.subrange(0, tail@.len() as int) =~= tail@);
}

/// Appends a system description table header with the checksum field zeroed.
pub fn append_acpi_header(bytes: &mut Vec<u8>, signature: &[u8; 4], length: u32)
    ensures
        final(bytes)@ == old(bytes)@ + acpi_header_spec(signature@, length),
{
    let oem: [u8; 6] = [0x4c, 0x49, 0x42, 0x4b, 0x52, 0x4e];
    let oem_table: [u8; 8] = [0x4c, 0x49, 0x42, 0x4b, 0x52, 0x55, 0x4e, 0x20];
    let creator: [u8; 4] = [0x4b, 0x52, 0x55, 0x4e];
    assert(oem@ =~= oem_id());
    assert(oem_table@ =~= oem_table_id());
    assert(creator@ =~= creator_id());
    append_bytes(bytes, signature);
    append_u32_le(bytes, length);
    bytes.push(1);
    bytes.push(0);
    append_bytes(bytes, &oem);
    append_bytes(bytes, &oem_table);
    append_u32_le(bytes, 1);
    append_bytes(bytes, &creator);
    append_u32_le(bytes, 1);
    assert(bytes@ =~= old(bytes)@ + acpi_header_spec(signature@, length));
}

/// Stores the checksum of a table in its header (byte 9).
pub fn finalize_acpi_table(bytes: &mut [u8])
    requires
        old(bytes)@.len() > 9,
    ensures
        final(bytes)@ == finalize_spec(old(bytes)@),
{
    let c = acpi_checksum(bytes);
    bytes[9] = c;
}

/// Builds the 20-byte RSDP pointing at `rsdt_addr`; its bytes sum to 0 mod 256.
pub fn build_rsdp(rsdt_addr: u32) -> (rsdp: [u8; 20])
    ensures
        rsdp@ == rsdp_spec(rsdt_addr),
        byte_sum(rsdp@) % 256 == 0,
{
    let mut rsdp = [0u8; 20];
    let sig: [u8; 8] = [0x52, 0x53, 0x44, 0x20, 0x50, 0x54, 0x52, 0x20];
    let mut i: usize = 0;
    while i < 8
        invariant
            i <= 8,
            forall|j: int| 0 <= j < i ==> rsdp@[j] == sig@[j],
            forall|j: int| i <= j < 20 ==> rsdp@[j] == 0,
        decreases 8 - i,
    {
        rsdp[i] = sig[i];
        i = i + 1;
    }
    let oem: [u8; 6] = [0x4c, 0x49, 0x42, 0x4b, 0x52, 0x4e];
    let mut k: usize = 0;
    while k < 6
        invariant
            k <= 6,
            forall|j: int| 0 <= j < 8 ==> rsdp@[j] == sig@[j],
            rsdp@[8] == 0,
            forall|j: int| 9 <= j < 9 + k ==> rsdp@[j] == oem@[j - 9],
            forall|j: int| 9 + k <= j < 20 ==> rsdp@[j] == 0,
        decreases 6 - k,
    {
        rsdp[9 + k] = oem[k];
        k = k + 1;
    }
    rsdp[15] = 0;
    let mut tail: Vec<u8> = Vec::new();
    append_u32_le(&mut tail, rsdt_addr);
    rsdp[16] = tail[0];
    rsdp[17] = tail[1];
    rsdp[18] = tail[2];
    rsdp[19] = tail[3];
    assert(rsdp@ =~= rsdp_unchecked(rsdt_addr));
    let c = acpi_checksum(&rsdp);
    rsdp[8] = c;
    proof {
        lemma_checksum_balances(rsdp_unchecked(rsdt_addr), 8);
    }
    rsdp
}

/// Builds the RSDT listing the MADT at `madt_addr`; its bytes sum to 0 mod 256.
pub fn build_rsdt(madt_addr: u32) -> (rsdt: Vec<u8>)
    ensures
        rsdt@ == rsdt_spec(madt_addr),
        rsdt@.len() == 40,
        byte_sum(rsdt@) % 256 == 0,
{
    let length: u32 = 36 + 4;
    let mut rsdt: Vec<u8> = Vec::with_capacity(length as usize);
    let sig: [u8; 4] = [0x52, 0x53, 0x44, 0x54];
    assert(sig@ =~= seq![0x52u8, 0x53, 0x44, 0x54]);
    append_acpi_header(&mut rsdt, &sig, length);
    append_u32_le(&mut rsdt, madt_addr);
    let ghost unchecked = rsdt@;
    assert(unchecked[9] == 0);
    finalize_acpi_table(rsdt.as_mut_slice());
    proof {
        lemma_checksum_balances(unchecked, 9);
    }
    rsdt
}

/// Builds the MADT for `num_cpus` processors; its bytes sum to 0 mod 256.
pub fn build_madt(num_cpus: u8) -> (madt: Vec<u8>)
    ensures
        madt@ == madt_spec(num_cpus),
        madt@.len() == madt_length(num_cpus),
        byte_sum(madt@) % 256 == 0,
{
    let lapic_entries_len: usize = (num_cpus as usize) * 8;
    let ioapic_entry_len: usize = 12;
    let payload_len: usize = 8 + lapic_entries_len + ioapic_entry_len;
    let length: u32 = 36 + payload_len as u32;
    let mut madt: Vec<u8> = Vec::with_capacity(length as usize);
    let sig: [u8; 4] = [0x41, 0x50, 0x49, 0x43];
    assert(sig@ =~= seq![0x41u8, 0x50, 0x49, 0x43]);
    append_acpi_header(&mut madt, &sig, length);
    append_u32_le(&mut madt, MADT_LOCAL_APIC_ADDR);
    append_u32_le(&mut madt, MADT_PCAT_COMPAT);
    let ghost head = madt@;
    let mut cpu_id: u8 = 0;
    while cpu_id < num_cpus
        invariant
            cpu_id <= num_cpus,
            madt@ == head + lapic_entries(cpu_id as nat),
        decreases num_cpus - cpu_id,
    {
        madt.push(0);
        madt.push(8);
        madt.push(cpu_id);
        madt.push(cpu_id);
        append_u32_le(&mut madt, 1);
        assert(lapic_entries((cpu_id + 1) as nat) =~= lapic_entries(cpu_id as nat) + lapic_entry(
            cpu_id,
        ));
        assert(madt@ =~= head + lapic_entries((cpu_id + 1) as nat));
        cpu_id = cpu_id + 1;
    }
    madt.push(1);
    madt.push(12);
    madt.push(num_cpus.saturating_add(1));
    madt.push(0);
    append_u32_le(&mut madt, MADT_IO_APIC_ADDR);
    append_u32_le(&mut madt, 0);
    assert(madt@ =~= madt_unchecked(num_cpus));
    proof {
        lemma_lapic_entries_len(num_cpus as nat);
    }
    let ghost unchecked = madt@;
    assert(unchecked[9] == 0);
    finalize_acpi_table(madt.as_mut_slice());
    proof {
        lemma_checksum_balances(unchecked, 9);
    }
    madt
}

proof fn lemma_lapic_entries_len(n: nat)
    ensures
        lapic_entries(n).len() == 8 * n,
    decreases n,
{
    if n > 0 {
        lemma_lapic_entries_len((n - 1) as nat);
    }
}

/// Guest physical addresses of the RSDP, the RSDT and the MADT.
pub fn table_addresses() -> (addrs: (u64, u64, u64))
    ensures
        addrs == (RSDP_ADDR, RSDT_ADDR, MADT_ADDR),
{
    (RSDP_ADDR, RSDT_ADDR, MADT_ADDR)
}

/// The RSDP and the RSDT fit below the next table's address, so installing
/// the three tables at `table_addresses()` writes disjoint ranges.
pub proof fn lemma_tables_do_not_overlap(rsdt_addr: u32, madt_addr: u32)
    ensures
        RSDP_ADDR + rsdp_spec(rsdt_addr).len() <= RSDT_ADDR,
        RSDT_ADDR + rsdt_spec(madt_addr).len() <= MADT_ADDR,
{
}

} // verus!
