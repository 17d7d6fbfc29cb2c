use krun_vmm::cpuid::{msr_write_value, split_value, HypervMsrState, MsrClocks};
use krun_vmm::decode::{merge_reg_bits, reg_bits};
use krun_vmm::exits::{le_value, to_le_bytes};
use krun_vmm::irq::{PendingInterrupt, PendingInterruptQueue};
use krun_vmm::options::pic_fixed_vector_override_from_value;
use krun_vmm::text::{format_radix, strip_quotes};

#[test]
fn merged_register_slice_reads_back() {
    for (size, high8) in [(1usize, false), (1, true), (2, false), (4, false), (8, false)] {
        let merged = merge_reg_bits(0x0123_4567_89ab_cdef, size, high8, 0xfedc_ba98_7654_3210).unwrap();
        assert_eq!(
            reg_bits(merged, size, high8).unwrap(),
            reg_bits(0xfedc_ba98_7654_3210, size, false).unwrap()
        );
    }
    // A high-byte store leaves bits 0..7 and 16.. alone.
    let merged = merge_reg_bits(0x1122_3344_5566_7788, 1, true, 0xAB).unwrap();
    assert_eq!(merged & 0xff, 0x88);
    assert_eq!(merged >> 16, 0x1122_3344_5566);
}

#[test]
fn stored_bytes_load_back() {
    for size in [1usize, 2, 4, 8] {
        let v = reg_bits(0x8877_6655_4433_2211, size, false).unwrap();
        assert_eq!(le_value(&to_le_bytes(v, size), size), v);
    }
}

#[test]
fn msr_reads_back_write_and_split_undoes_join() {
    let mut st = HypervMsrState::new();
    let clocks = MsrClocks { tsc: 0, counter_100ns: 0, tsc_hz: 0 };
    st.write(0x4000_0001, 0xdead_beef, 0x1);
    st.write(0x4000_0000, 0x5, 0x6);
    assert_eq!(st.read(0x4000_0001, 0, clocks), 0x1_dead_beef);
    assert_eq!(st.read(0x4000_0000, 0, clocks), 0x6_0000_0005);
    assert_eq!(split_value(msr_write_value(0xaaaa_bbbb_cccc_dddd, 0x1111_2222_3333_4444)), (0xcccc_dddd, 0x3333_4444));
}

#[test]
fn popped_interrupt_can_be_requeued() {
    let mut q = PendingInterruptQueue::new();
    q.push_unique(PendingInterrupt::PicExtInt { irq: 0, vector: 0x30 });
    q.push_unique(PendingInterrupt::PicExtInt { irq: 1, vector: 0x31 });
    let p = q.pop_front().unwrap();
    assert!(!q.contains_irq(p.irq()));
    q.push_front(p);
    assert_eq!(q.front(), Some(PendingInterrupt::PicExtInt { irq: 0, vector: 0x30 }));
    assert_eq!(q.len(), 2);
}

#[test]
fn formatted_numbers_parse_back() {
    for v in [0u64, 7, 9, 10, 15, 16, 200, 255] {
        let dec = format_radix(v, 10, 0);
        assert_eq!(dec, v.to_string());
        assert_eq!(pic_fixed_vector_override_from_value(Some(&dec)), Some(v as u8));
        let hex = format_radix(v, 16, 0);
        assert_eq!(hex, format!("{v:x}"));
        assert_eq!(pic_fixed_vector_override_from_value(Some(&format!("0x{hex}"))), Some(v as u8));
    }
    assert_eq!(format_radix(0xabc, 16, 8), "00000abc");
    assert_eq!(format_radix(u64::MAX, 10, 3), u64::MAX.to_string());
}

#[test]
fn quotes_are_removed() {
    assert_eq!(strip_quotes("\"a\" \"b\""), "a b");
    assert_eq!(strip_quotes("plain"), "plain");
    assert_eq!(strip_quotes("\"\""), "");
    assert_eq!(strip_quotes("é\"ü"), "éü");
}
