//! The 8-byte segment descriptor entry and its bit-exact packing.
//!
//! A descriptor packs a 32-bit base split over three sub-fields, a 20-bit
//! limit split over two sub-fields, one access byte, and the 4-bit flags
//! nibble sharing a byte with the limit's high nibble.  The shared byte is
//! `(flags << 4) | (limit_high & 0x0F)`.  The contracts state that decoding
//! a constructed entry reproduces the inputs exactly.

use vstd::prelude::*;
use crate::flags::AccessByte;
use crate::flags::Flags;

verus! {

/// The byte a descriptor packs the flags nibble and the limit's high nibble
/// into: flags in the high 4 bits, limit bits 16-19 in the low 4 bits.
#[derive(Clone, Copy, Debug, Default, PartialEq, Eq, Structural)]
pub struct FlagsAndLimit {
    byte: u8,
}

impl FlagsAndLimit {
    /// The raw shared byte.
    pub closed spec fn spec_byte(&self) -> u8 {
        self.byte
    }

    /// The packing: flags in the high nibble, the low 4 bits of `limit` in
    /// the low nibble.  Flag bits above the low nibble are shifted out.
    pub closed spec fn spec_new(limit: u8, flags: Flags) -> FlagsAndLimit {
        FlagsAndLimit { byte: (flags.spec_bits() << 4) | (limit & 0x0F) }
    }

    /// The limit high nibble held in the low 4 bits of the shared byte.
    pub closed spec fn spec_limit(&self) -> u8 {
        self.byte & 0x0F
    }

    /// The flags held in the high 4 bits of the shared byte.
    pub closed spec fn spec_flags(&self) -> Flags {
        Flags::spec_from_bits(self.byte >> 4)
    }

    /// Packs the limit's high nibble together with the flags nibble.
    pub fn new(limit: u8, flags: Flags) -> (r: FlagsAndLimit)
        ensures
            r == FlagsAndLimit::spec_new(limit, flags),
            r.spec_byte() == ((flags.spec_bits() << 4) | (limit & 0x0F)),
            r.spec_limit() == limit & 0x0F,
            r.spec_flags() == Flags::spec_from_bits(flags.spec_bits() & 0x0F),
    {
        let r = FlagsAndLimit { byte: (flags.bits() << 4) | (limit & 0x0F) };
        proof {
            let fb = flags.spec_bits();
            assert(((fb << 4) | (limit & 0x0F)) & 0x0F == limit & 0x0F) by (bit_vector);
            assert(((fb << 4) | (limit & 0x0F)) >> 4 == fb & 0x0F) by (bit_vector);
        }
        r
    }

    /// Retains an arbitrary byte as a shared flags/limit byte, keeping every
    /// bit.  Needed to round-trip an already-encoded entry.
    pub fn from_byte(byte: u8) -> (r: FlagsAndLimit)
        ensures
            r.spec_byte() == byte,
    {
        FlagsAndLimit { byte }
    }

    /// Returns the raw shared byte.
    pub fn byte(&self) -> (r: u8)
        ensures
            r == self.spec_byte(),
    {
        self.byte
    }

    /// Returns the limit high nibble.
    pub fn limit(&self) -> (r: u8)
        ensures
            r == self.spec_limit(),
    {
        self.byte & 0x0F
    }

    /// Returns the flags nibble, retained as a flag set.
    pub fn flags(&self) -> (r: Flags)
        ensures
            r == self.spec_flags(),
    {
        Flags::from_bits_retain(self.byte >> 4)
    }
}

/// One 8-byte segment descriptor, held as the six packed sub-fields in the
/// CPU's layout order: limit bits 0-15, base bits 0-15, base bits 16-23, the
/// access byte, the shared flags/limit byte, base bits 24-31.
#[derive(Clone, Copy, Debug, Default, PartialEq, Eq, Structural)]
pub struct GdtEntry {
    limit1: u16,
    base1: u16,
    base2: u8,
    access_byte: AccessByte,
    flags: FlagsAndLimit,
    base3: u8,
}

impl GdtEntry {
    /// The entry that packing the given fields produces.  Base and limit are
    /// split by truncating casts exactly as the encoding prescribes.
    pub closed spec fn spec_new(base: u32, limit: u32, access_byte: AccessByte, flags: Flags) -> GdtEntry {
        GdtEntry {
            limit1: limit as u16,
            base1: base as u16,
            base2: (base >> 16) as u8,
            access_byte,
            flags: FlagsAndLimit::spec_new((limit >> 16) as u8, flags),
            base3: (base >> 24) as u8,
        }
    }

    /// The 32-bit base reassembled from its three sub-fields.
    pub closed spec fn spec_base(&self) -> u32 {
        (self.base1 as u32) | ((self.base2 as u32) << 16) | ((self.base3 as u32) << 24)
    }

    /// The 20-bit limit reassembled from its two sub-fields.
    pub closed spec fn spec_limit(&self) -> u32 {
        (self.limit1 as u32) | ((self.flags.spec_limit() as u32) << 16)
    }

    /// The access byte of the entry.
    pub closed spec fn spec_access_byte(&self) -> AccessByte {
        self.access_byte
    }

    /// The flags nibble of the entry.
    pub closed spec fn spec_flags(&self) -> Flags {
        self.flags.spec_flags()
    }

    /// The shared flags/limit byte of the entry.
    pub closed spec fn spec_flags_and_limit_byte(&self) -> u8 {
        self.flags.spec_byte()
    }

    /// The 8-byte encoding of the entry, in memory order (little endian
    /// within each multi-byte sub-field).
    pub closed spec fn spec_to_bytes(&self) -> Seq<u8> {
        seq![
            (self.limit1 & 0xFF) as u8,
            (self.limit1 >> 8) as u8,
            (self.base1 & 0xFF) as u8,
            (self.base1 >> 8) as u8,
            self.base2,
            self.access_byte.spec_bits(),
            self.flags.spec_byte(),
            self.base3,
        ]
    }

    /// The entry an 8-byte buffer decodes to, sub-fields read in memory
    /// order (little endian within each multi-byte sub-field).
    pub closed spec fn spec_from_bytes(b: Seq<u8>) -> GdtEntry
        recommends
            b.len() == 8,
    {
        GdtEntry {
            limit1: ((b[0] as u16) | ((b[1] as u16) << 8)),
            base1: ((b[2] as u16) | ((b[3] as u16) << 8)),
            base2: b[4],
            access_byte: AccessByte::spec_from_bits(b[5]),
            flags: FlagsAndLimit { byte: b[6] },
            base3: b[7],
        }
    }

    /// Every entry's reassembled limit fits in 20 bits: its high sub-field
    /// is a single nibble, whatever byte the shared field holds.
    pub proof fn lemma_limit_fits(e: GdtEntry)
        ensures
            e.spec_limit() <= 0xFFFFF,
    {
        let l = e.limit1;
        let b = e.flags.spec_byte();
        assert((l as u32) | (((b & 0x0F) as u32) << 16) <= 0xFFFFF) by (bit_vector);
    }

    /// Byte-level round-trip law: decoding the 8-byte encoding of any entry
    /// gives the entry back.
    pub proof fn lemma_bytes_round_trip(e: GdtEntry)
        ensures
            GdtEntry::spec_from_bytes(e.spec_to_bytes()) == e,
    {
        let l = e.limit1;
        let b = e.base1;
        assert((((l & 0xFF) as u8) as u16) | ((((l >> 8) as u8) as u16) << 8) == l) by (bit_vector);
        assert((((b & 0xFF) as u8) as u16) | ((((b >> 8) as u8) as u16) << 8) == b) by (bit_vector);
        crate::flags::lemma_access_byte_from_bits(e.access_byte);
    }

    /// Round-trip law: decoding an entry packed from any base, any limit that
    /// fits in 20 bits, any access byte, and any 4-bit flag set reproduces
    /// the inputs exactly.
    pub proof fn lemma_round_trip(base: u32, limit: u32, access_byte: AccessByte, flags: Flags)
        requires
            limit <= 0xFFFFF,
        ensures
            GdtEntry::spec_new(base, limit, access_byte, flags).spec_base() == base,
            GdtEntry::spec_new(base, limit, access_byte, flags).spec_limit() == limit,
            GdtEntry::spec_new(base, limit, access_byte, flags).spec_access_byte() == access_byte,
            GdtEntry::spec_new(base, limit, access_byte, flags).spec_flags()
                == Flags::spec_from_bits(flags.spec_bits() & 0x0F),
            flags.spec_bits() <= 0x0F ==> GdtEntry::spec_new(base, limit, access_byte, flags).spec_flags() == flags,
    {
        let fb = flags.spec_bits();
        let e = GdtEntry::spec_new(base, limit, access_byte, flags);
        assert(((base as u16) as u32) | ((((base >> 16) as u8) as u32) << 16)
            | ((((base >> 24) as u8) as u32) << 24) == base) by (bit_vector);
        assert(((fb << 4) | (((limit >> 16) as u8) & 0x0F)) & 0x0F == ((limit >> 16) as u8) & 0x0F)
            by (bit_vector);
        assert(((limit as u16) as u32) | (((((limit >> 16) as u8) & 0x0F) as u32) << 16) == limit)
            by (bit_vector)
            requires
                limit <= 0xFFFFF,
        ;
        assert(((fb << 4) | (((limit >> 16) as u8) & 0x0F)) >> 4 == fb & 0x0F) by (bit_vector);
        assert(fb <= 0x0F ==> fb & 0x0F == fb) by (bit_vector);
        if fb <= 0x0F {
            crate::flags::lemma_flags_from_bits(flags);
        }
    }

    /// Packs base, limit, access byte and flags into a descriptor entry.
    /// The limit must fit in 20 bits; decoding the result reproduces the
    /// inputs.
    pub fn new(base: u32, limit: u32, access_byte: AccessByte, flags: Flags) -> (r: GdtEntry)
        requires
            limit <= 0xFFFFF,
        ensures
            r == GdtEntry::spec_new(base, limit, access_byte, flags),
            r.spec_base() == base,
            r.spec_limit() == limit,
            r.spec_access_byte() == access_byte,
            r.spec_flags() == Flags::spec_from_bits(flags.spec_bits() & 0x0F),
            flags.spec_bits() <= 0x0F ==> r.spec_flags() == flags,
            r.spec_flags_and_limit_byte() == ((flags.spec_bits() << 4) | (((limit >> 16) as u8) & 0x0F)),
    {
        let limit1: u16 = #[verifier::truncate] (limit as u16);
        let base1: u16 = #[verifier::truncate] (base as u16);
        let base2: u8 = #[verifier::truncate] ((base >> 16) as u8);
        let limit_hi: u8 = #[verifier::truncate] ((limit >> 16) as u8);
        let base3: u8 = #[verifier::truncate] ((base >> 24) as u8);
        let r = GdtEntry {
            limit1,
            base1,
            base2,
            access_byte,
            flags: FlagsAndLimit::new(limit_hi, flags),
            base3,
        };
        proof {
            GdtEntry::lemma_round_trip(base, limit, access_byte, flags);
        }
        r
    }

    /// Packs a descriptor entry if the limit fits in 20 bits; reports the
    /// construction-time failure as `None` for every wider limit.
    pub fn try_new(base: u32, limit: u32, access_byte: AccessByte, flags: Flags) -> (r: Option<GdtEntry>)
        ensures
            r is Some <==> limit <= 0xFFFFF,
            r matches Some(e) ==> e == GdtEntry::spec_new(base, limit, access_byte, flags),
    {
        proof {
            assert(limit & 0xFFF00000 == 0 <==> limit <= 0xFFFFF) by (bit_vector);
        }
        if limit & 0xFFF00000 != 0 {
            None
        } else {
            Some(GdtEntry::new(base, limit, access_byte, flags))
        }
    }

    /// The null entry: every field zero, hence an all-zero 8-byte encoding.
    /// It must occupy index 0 of any descriptor table.
    pub fn null() -> (r: GdtEntry)
        ensures
            r == GdtEntry::spec_new(0, 0, AccessByte::spec_from_bits(0), Flags::spec_from_bits(0)),
            r.spec_base() == 0,
            r.spec_limit() == 0,
            r.spec_access_byte().spec_bits() == 0,
            r.spec_flags().spec_bits() == 0,
            r.spec_to_bytes() == seq![0u8, 0u8, 0u8, 0u8, 0u8, 0u8, 0u8, 0u8],
    {
        let r = GdtEntry::new(0, 0, AccessByte::empty(), Flags::empty());
        proof {
            assert(0u32 >> 16 == 0 && 0u32 >> 24 == 0) by (bit_vector);
            assert(0u16 & 0xFF == 0 && 0u16 >> 8 == 0) by (bit_vector);
            assert((0u8 << 4) | (0u8 & 0x0F) == 0) by (bit_vector);
            assert(r.spec_to_bytes() =~= seq![0u8, 0u8, 0u8, 0u8, 0u8, 0u8, 0u8, 0u8]);
        }
        r
    }

    /// Returns the 8-byte encoding of the entry in memory order.
    pub fn to_bytes(&self) -> (r: Vec<u8>)
        ensures
            r@ == self.spec_to_bytes(),
            r@.len() == 8,
    {
        let mut v: Vec<u8> = Vec::new();
        v.push(#[verifier::truncate] ((self.limit1 & 0xFF) as u8));
        v.push(#[verifier::truncate] ((self.limit1 >> 8) as u8));
        v.push(#[verifier::truncate] ((self.base1 & 0xFF) as u8));
        v.push(#[verifier::truncate] ((self.base1 >> 8) as u8));
        v.push(self.base2);
        v.push(self.access_byte.bits());
        v.push(self.flags.byte);
        v.push(self.base3);
        proof {
            assert(v@ =~= self.spec_to_bytes());
        }
        v
    }

    /// Decodes an 8-byte buffer into the entry it encodes.  Encoding the
    /// result reproduces the buffer exactly.
    pub fn from_bytes(bytes: &Vec<u8>) -> (r: GdtEntry)
        requires
            bytes@.len() == 8,
        ensures
            r == GdtEntry::spec_from_bytes(bytes@),
            r.spec_to_bytes() == bytes@,
    {
        let limit1: u16 = (bytes[0] as u16) | ((bytes[1] as u16) << 8);
        let base1: u16 = (bytes[2] as u16) | ((bytes[3] as u16) << 8);
        let r = GdtEntry {
            limit1,
            base1,
            base2: bytes[4],
            access_byte: AccessByte::from_bits_retain(bytes[5]),
            flags: FlagsAndLimit::from_byte(bytes[6]),
            base3: bytes[7],
        };
        proof {
            let b0 = bytes@[0];
            let b1 = bytes@[1];
            let b2 = bytes@[2];
            let b3 = bytes@[3];
            assert(((b0 as u16) | ((b1 as u16) << 8)) & 0xFF == b0
                && ((b0 as u16) | ((b1 as u16) << 8)) >> 8 == b1) by (bit_vector);
            assert(((b2 as u16) | ((b3 as u16) << 8)) & 0xFF == b2
                && ((b2 as u16) | ((b3 as u16) << 8)) >> 8 == b3) by (bit_vector);
            assert(r.spec_to_bytes() =~= bytes@);
        }
        r
    }

    /// Reassembles the 32-bit base from its three sub-fields.
    pub fn base(&self) -> (r: u32)
        ensures
            r == self.spec_base(),
    {
        (self.base1 as u32) | ((self.base2 as u32) << 16) | ((self.base3 as u32) << 24)
    }

    /// Reassembles the 20-bit limit from its two sub-fields.
    pub fn limit(&self) -> (r: u32)
        ensures
            r == self.spec_limit(),
    {
        (self.limit1 as u32) | ((self.flags.limit() as u32) << 16)
    }

    /// Returns the access byte of the entry.
    pub fn access_byte(&self) -> (r: AccessByte)
        ensures
            r == self.spec_access_byte(),
    {
        self.access_byte
    }

    /// Extracts the flags nibble from the shared flags/limit byte.
    pub fn flags(&self) -> (r: Flags)
        ensures
            r == self.spec_flags(),
    {
        self.flags.flags()
    }

    /// Returns the shared flags/limit byte of the entry.
    pub fn flags_and_limit_byte(&self) -> (r: u8)
        ensures
            r == self.spec_flags_and_limit_byte(),
    {
        self.flags.byte
    }
}

} // verus!
