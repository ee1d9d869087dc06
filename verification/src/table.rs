//! The descriptor table, its CPU-facing locator record, and the fixed
//! three-entry table this system loads: null, flat code, flat data.
//!
//! The locator's size field is always computed from the backing table's own
//! byte length, never hand-specified, so that the size can never diverge
//! from the table.

use vstd::prelude::*;
use crate::entry::GdtEntry;
use crate::flags::AccessByte;
use crate::flags::Flags;

verus! {

/// The size in bytes of one encoded descriptor entry.
pub const ENTRY_BYTES: usize = 8;

/// The CPU-facing locator record for a descriptor table: the table's byte
/// length minus one, and the table itself standing for the memory the
/// record's address field points at.
#[derive(Clone, Debug)]
pub struct GdtDescriptor {
    size: u16,
    table: Vec<GdtEntry>,
}

impl GdtDescriptor {
    /// The size field: byte length of the table minus one.
    pub closed spec fn spec_size(&self) -> u16 {
        self.size
    }

    /// The entries of the table the record points at.
    pub closed spec fn spec_table(&self) -> Seq<GdtEntry> {
        self.table@
    }

    /// Well-formedness: the record holds at least the null entry, the table
    /// fits what a 16-bit size field can describe, and the size field equals
    /// the table's byte length minus one.
    pub open spec fn wf(&self) -> bool {
        &&& 1 <= self.spec_table().len()
        &&& self.spec_table().len() * ENTRY_BYTES <= 0x10000
        &&& self.spec_size() == self.spec_table().len() * ENTRY_BYTES - 1
    }

    /// Locator-size law: a well-formed record's size field equals the entry
    /// count times the entry size, minus one, whatever the table's length.
    pub proof fn lemma_size_tracks_table(d: &GdtDescriptor)
        requires
            d.wf(),
        ensures
            d.spec_size() + 1 == d.spec_table().len() * ENTRY_BYTES,
    {
    }

    /// Builds the locator record for a table, computing the size field from
    /// the table's own byte length.
    pub fn new(gdt: Vec<GdtEntry>) -> (r: GdtDescriptor)
        requires
            1 <= gdt@.len(),
            gdt@.len() * ENTRY_BYTES <= 0x10000,
        ensures
            r.wf(),
            r.spec_table() == gdt@,
            r.spec_size() == gdt@.len() * ENTRY_BYTES - 1,
    {
        let size: u16 = (gdt.len() * ENTRY_BYTES - 1) as u16;
        GdtDescriptor { size, table: gdt }
    }

    /// Returns the size field: the table's byte length minus one.
    pub fn size(&self) -> (r: u16)
        ensures
            r == self.spec_size(),
    {
        self.size
    }

    /// Reconstructs the logical entry sequence from the record, recovering
    /// the entry count as `(size + 1) / 8` and reading that many entries.
    pub fn entries(&self) -> (r: Vec<GdtEntry>)
        requires
            self.wf(),
        ensures
            r@ == self.spec_table(),
            r@.len() == (self.spec_size() + 1) / (ENTRY_BYTES as int),
    {
        let length: usize = (self.size as usize + 1) / ENTRY_BYTES;
        let mut r: Vec<GdtEntry> = Vec::new();
        let mut i: usize = 0;
        while i < length
            invariant
                self.wf(),
                length == self.spec_table().len(),
                i <= length,
                r@ == self.spec_table().subrange(0, i as int),
            decreases length - i,
        {
            r.push(self.table[i]);
            i = i + 1;
        }
        proof {
            assert(r@ =~= self.spec_table());
        }
        r
    }
}

/// The access byte of the flat code segment: present, code-or-data,
/// executable, readable.
pub open spec fn spec_code_access() -> AccessByte {
    AccessByte::spec_from_bits(0x9A)
}

/// The access byte of the flat data segment: present, code-or-data,
/// writable.
pub open spec fn spec_data_access() -> AccessByte {
    AccessByte::spec_from_bits(0x92)
}

/// The flags nibble both flat segments use: 4 KiB granularity, 32-bit.
pub open spec fn spec_segment_flags() -> Flags {
    Flags::spec_from_bits(0x0C)
}

/// The flat code segment entry: base 0, limit covering 4 GiB through 4 KiB
/// granularity, executable and readable, 32-bit.
pub open spec fn spec_code_segment_entry() -> GdtEntry {
    GdtEntry::spec_new(0, 0xFFFFF, spec_code_access(), spec_segment_flags())
}

/// The flat data segment entry: base 0, the same 4 GiB limit, writable,
/// 32-bit, non-executable.
pub open spec fn spec_data_segment_entry() -> GdtEntry {
    GdtEntry::spec_new(0, 0xFFFFF, spec_data_access(), spec_segment_flags())
}

/// Builds the flat code segment entry.  Its access byte is `0b10011010`,
/// its flags nibble `0b1100`, and its shared flags/limit byte `0b11001111`.
pub fn code_segment_entry() -> (r: GdtEntry)
    ensures
        r == spec_code_segment_entry(),
        r.spec_base() == 0,
        r.spec_limit() == 0xFFFFF,
        r.spec_access_byte().spec_bits() == 0x9A,
        r.spec_flags().spec_bits() == 0x0C,
        r.spec_flags_and_limit_byte() == 0xCF,
{
    let access = AccessByte::p().union(AccessByte::s()).union(AccessByte::e()).union(AccessByte::rw());
    let flags = Flags::g().union(Flags::db());
    proof {
        assert((((0x80u8 | 0x10) | 0x08) | 0x02) == 0x9A) by (bit_vector);
        assert((0x08u8 | 0x04) == 0x0C) by (bit_vector);
        crate::flags::lemma_access_byte_from_bits(access);
        crate::flags::lemma_flags_from_bits(flags);
    }
    let r = GdtEntry::new(0, 0xFFFFF, access, flags);
    proof {
        assert((0x0Cu8 << 4) | (((0xFFFFFu32 >> 16) as u8) & 0x0F) == 0xCF) by (bit_vector);
        assert(0x0Cu8 <= 0x0F) by (bit_vector);
    }
    r
}

/// Builds the flat data segment entry.  Its access byte is `0b10010010` and
/// its flags nibble `0b1100`.
pub fn data_segment_entry() -> (r: GdtEntry)
    ensures
        r == spec_data_segment_entry(),
        r.spec_base() == 0,
        r.spec_limit() == 0xFFFFF,
        r.spec_access_byte().spec_bits() == 0x92,
        r.spec_flags().spec_bits() == 0x0C,
        r.spec_flags_and_limit_byte() == 0xCF,
{
    let access = AccessByte::p().union(AccessByte::s()).union(AccessByte::rw());
    let flags = Flags::g().union(Flags::db());
    proof {
        assert(((0x80u8 | 0x10) | 0x02) == 0x92) by (bit_vector);
        assert((0x08u8 | 0x04) == 0x0C) by (bit_vector);
        crate::flags::lemma_access_byte_from_bits(access);
        crate::flags::lemma_flags_from_bits(flags);
    }
    let r = GdtEntry::new(0, 0xFFFFF, access, flags);
    proof {
        assert((0x0Cu8 << 4) | (((0xFFFFFu32 >> 16) as u8) & 0x0F) == 0xCF) by (bit_vector);
        assert(0x0Cu8 <= 0x0F) by (bit_vector);
    }
    r
}

/// The three-entry table this system loads: the null entry at index 0, the
/// flat code segment at index 1, the flat data segment at index 2.
pub fn gdt_table() -> (r: Vec<GdtEntry>)
    ensures
        r@.len() == 3,
        r@[0] == GdtEntry::spec_new(0, 0, AccessByte::spec_from_bits(0), Flags::spec_from_bits(0)),
        r@[0].spec_to_bytes() == seq![0u8, 0u8, 0u8, 0u8, 0u8, 0u8, 0u8, 0u8],
        r@[1] == spec_code_segment_entry(),
        r@[2] == spec_data_segment_entry(),
{
    let mut r: Vec<GdtEntry> = Vec::new();
    r.push(GdtEntry::null());
    r.push(code_segment_entry());
    r.push(data_segment_entry());
    r
}

/// Builds the locator record for the three-entry table; its size field is
/// `3 * 8 - 1 = 23`.
pub fn gdt_descriptor() -> (r: GdtDescriptor)
    ensures
        r.wf(),
        r.spec_size() == 23,
        r.spec_table().len() == 3,
        r.spec_table()[0] == GdtEntry::spec_new(0, 0, AccessByte::spec_from_bits(0), Flags::spec_from_bits(0)),
        r.spec_table()[1] == spec_code_segment_entry(),
        r.spec_table()[2] == spec_data_segment_entry(),
{
    GdtDescriptor::new(gdt_table())
}

/// The byte offset of the code segment entry inside the table: the selector
/// value a far jump into the code segment uses.
pub fn code_segment_offset() -> (r: u16)
    ensures
        r == ENTRY_BYTES,
{
    (ENTRY_BYTES as u16) * 1
}

} // verus!
