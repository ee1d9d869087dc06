use gdt::entry::FlagsAndLimit;
use gdt::entry::GdtEntry;
use gdt::flags::AccessByte;
use gdt::flags::Flags;
use gdt::table::code_segment_entry;
use gdt::table::code_segment_offset;
use gdt::table::data_segment_entry;
use gdt::table::gdt_descriptor;
use gdt::table::gdt_table;
use gdt::table::GdtDescriptor;

#[test]
fn access_byte_named_bits() {
    assert_eq!(AccessByte::p().bits(), 0b1000_0000);
    assert_eq!(AccessByte::dpl().bits(), 0b0110_0000);
    assert_eq!(AccessByte::s().bits(), 0b0001_0000);
    assert_eq!(AccessByte::e().bits(), 0b0000_1000);
    assert_eq!(AccessByte::dc().bits(), 0b0000_0100);
    assert_eq!(AccessByte::rw().bits(), 0b0000_0010);
    assert_eq!(AccessByte::a().bits(), 0b0000_0001);
    assert_eq!(AccessByte::empty().bits(), 0);
}

#[test]
fn flags_named_bits() {
    assert_eq!(Flags::g().bits(), 0b1000);
    assert_eq!(Flags::db().bits(), 0b0100);
    assert_eq!(Flags::l().bits(), 0b0010);
    assert_eq!(Flags::empty().bits(), 0);
}

#[test]
fn union_and_contains() {
    let acc = AccessByte::p().union(AccessByte::s()).union(AccessByte::rw());
    assert_eq!(acc.bits(), 0b1001_0010);
    assert!(acc.contains(AccessByte::p()));
    assert!(acc.contains(AccessByte::rw()));
    assert!(!acc.contains(AccessByte::e()));
    let fl = Flags::g().union(Flags::db());
    assert!(fl.contains(Flags::g()));
    assert!(!fl.contains(Flags::l()));
}

#[test]
fn from_bits_retain_keeps_every_bit() {
    assert_eq!(AccessByte::from_bits_retain(0xFF).bits(), 0xFF);
    assert_eq!(AccessByte::from_bits_retain(0x5A).bits(), 0x5A);
    assert_eq!(Flags::from_bits_retain(0xF7).bits(), 0xF7);
}

#[test]
fn describe_enumerates_set_flags() {
    let acc = AccessByte::p().union(AccessByte::s()).union(AccessByte::rw());
    assert_eq!(acc.describe(), "P S RW ");
    assert_eq!(AccessByte::empty().describe(), "");
    assert_eq!(AccessByte::from_bits_retain(0xFF).describe(), "P DPL S E DC RW A ");
    assert_eq!(Flags::g().union(Flags::db()).describe(), "G DB ");
    assert_eq!(Flags::empty().describe(), "");
}

#[test]
fn example_access_byte_is_10011010() {
    let acc = AccessByte::p()
        .union(AccessByte::s())
        .union(AccessByte::e())
        .union(AccessByte::rw());
    assert_eq!(acc.bits(), 0b1001_1010);
    let fl = Flags::g().union(Flags::db());
    assert_eq!(fl.bits(), 0b1100);
    let entry = GdtEntry::new(0, 0xFFFFF, acc, fl);
    assert_eq!(entry.flags_and_limit_byte(), 0b1100_1111);
    assert_eq!(entry.to_bytes()[6], 0b1100_1111);
}

#[test]
fn flags_and_limit_shared_byte() {
    let fl = FlagsAndLimit::new(0xAB, Flags::from_bits_retain(0x0C));
    assert_eq!(fl.limit(), 0x0B);
    assert_eq!(fl.flags().bits(), 0x0C);
    let all = FlagsAndLimit::new(0x0F, Flags::from_bits_retain(0x0F));
    assert_eq!(all.limit(), 0x0F);
    assert_eq!(all.flags().bits(), 0x0F);
}

#[test]
fn entry_round_trip() {
    let acc = AccessByte::p().union(AccessByte::s()).union(AccessByte::rw());
    let fl = Flags::g().union(Flags::db());
    let entry = GdtEntry::new(0x1234_5678, 0xA_BCDE, acc, fl);
    assert_eq!(entry.base(), 0x1234_5678);
    assert_eq!(entry.limit(), 0xA_BCDE);
    assert_eq!(entry.access_byte(), acc);
    assert_eq!(entry.flags(), fl);
}

#[test]
fn entry_round_trip_extremes() {
    let entry = GdtEntry::new(u32::MAX, 0xFFFFF, AccessByte::from_bits_retain(0xFF), Flags::from_bits_retain(0x0F));
    assert_eq!(entry.base(), u32::MAX);
    assert_eq!(entry.limit(), 0xFFFFF);
    assert_eq!(entry.access_byte().bits(), 0xFF);
    assert_eq!(entry.flags().bits(), 0x0F);
    let zero = GdtEntry::new(0, 0, AccessByte::empty(), Flags::empty());
    assert_eq!(zero.base(), 0);
    assert_eq!(zero.limit(), 0);
}

#[test]
fn oversized_limit_is_refused() {
    let acc = AccessByte::p();
    let fl = Flags::g();
    assert!(GdtEntry::try_new(0, 0x10_0000, acc, fl).is_none());
    assert!(GdtEntry::try_new(0, 0x10_0001, acc, fl).is_none());
    assert!(GdtEntry::try_new(0, 0xFFF0_0000, acc, fl).is_none());
    assert!(GdtEntry::try_new(0, u32::MAX, acc, fl).is_none());
    assert!(GdtEntry::try_new(0, 0xFFFFF, acc, fl).is_some());
    assert!(GdtEntry::try_new(0, 0, acc, fl).is_some());
}

#[test]
fn null_entry_encodes_to_zero_bytes() {
    let null = GdtEntry::null();
    assert_eq!(null.to_bytes(), vec![0u8; 8]);
    assert_eq!(null.base(), 0);
    assert_eq!(null.limit(), 0);
    assert_eq!(null.access_byte().bits(), 0);
    assert_eq!(null.flags().bits(), 0);
}

#[test]
fn default_entry_is_the_null_entry() {
    assert_eq!(GdtEntry::default(), GdtEntry::null());
}

#[test]
fn entry_to_bytes_layout() {
    let acc = AccessByte::from_bits_retain(0x9A);
    let fl = Flags::from_bits_retain(0x0C);
    let entry = GdtEntry::new(0x1234_5678, 0xA_BCDE, acc, fl);
    let bytes = entry.to_bytes();
    assert_eq!(bytes, vec![0xDE, 0xBC, 0x78, 0x56, 0x34, 0x9A, 0xCA, 0x12]);
}

#[test]
fn bytes_round_trip_both_ways() {
    let acc = AccessByte::p().union(AccessByte::s()).union(AccessByte::e());
    let entry = GdtEntry::new(0xFEDC_BA98, 0x7_6543, acc, Flags::db().union(Flags::l()));
    let bytes = entry.to_bytes();
    assert_eq!(GdtEntry::from_bytes(&bytes), entry);

    let raw = vec![0xDE, 0xBC, 0x78, 0x56, 0x34, 0x9A, 0xCA, 0x12];
    let decoded = GdtEntry::from_bytes(&raw);
    assert_eq!(decoded.to_bytes(), raw);
    assert_eq!(decoded.base(), 0x1234_5678);
    assert_eq!(decoded.limit(), 0xA_BCDE);
    assert_eq!(decoded.access_byte().bits(), 0x9A);
    assert_eq!(decoded.flags().bits(), 0x0C);
}

#[test]
fn shared_byte_raw_round_trip() {
    let fl = FlagsAndLimit::from_byte(0xCF);
    assert_eq!(fl.byte(), 0xCF);
    assert_eq!(fl.limit(), 0x0F);
    assert_eq!(fl.flags().bits(), 0x0C);
}

#[test]
fn locator_size_tracks_table_length() {
    for n in 1..=8usize {
        let mut table = Vec::new();
        for _ in 0..n {
            table.push(GdtEntry::null());
        }
        let descriptor = GdtDescriptor::new(table);
        assert_eq!(descriptor.size() as usize, n * 8 - 1);
        assert_eq!(descriptor.entries().len(), n);
    }
}

#[test]
fn locator_reconstructs_entries() {
    let mut table = Vec::new();
    table.push(GdtEntry::null());
    table.push(code_segment_entry());
    table.push(data_segment_entry());
    let descriptor = GdtDescriptor::new(table.clone());
    assert_eq!(descriptor.entries(), table);
}

#[test]
fn three_entry_table_layout() {
    let table = gdt_table();
    assert_eq!(table.len(), 3);
    assert_eq!(table[0], GdtEntry::null());
    assert_eq!(table[1], code_segment_entry());
    assert_eq!(table[2], data_segment_entry());
}

#[test]
fn system_descriptor_fields() {
    let descriptor = gdt_descriptor();
    assert_eq!(descriptor.size(), 23);
    let entries = descriptor.entries();
    assert_eq!(entries.len(), 3);
    assert_eq!(entries[0].to_bytes(), vec![0u8; 8]);
    assert_eq!(entries[1].access_byte().bits(), 0b1001_1010);
    assert_eq!(entries[2].access_byte().bits(), 0b1001_0010);
}

#[test]
fn code_and_data_segments_are_flat() {
    let code = code_segment_entry();
    assert_eq!(code.base(), 0);
    assert_eq!(code.limit(), 0xFFFFF);
    assert_eq!(code.access_byte().bits(), 0b1001_1010);
    assert_eq!(code.flags().bits(), 0b1100);
    let data = data_segment_entry();
    assert_eq!(data.base(), 0);
    assert_eq!(data.limit(), 0xFFFFF);
    assert_eq!(data.access_byte().bits(), 0b1001_0010);
    assert_eq!(data.flags().bits(), 0b1100);
}

#[test]
fn code_segment_offset_is_one_entry() {
    assert_eq!(code_segment_offset(), 8);
}
