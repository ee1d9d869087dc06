//! Bit-flag sets for the two sub-byte fields of a segment descriptor: the
//! access byte and the 4-bit flags nibble.
//!
//! Both types are plain wrappers over the raw bits.  Construction from named
//! flags, union composition, and raw round-tripping are total, pure bit
//! operations; the contracts state the exact resulting bit patterns.

use vstd::prelude::*;
use vstd::string::StringExecFns;

verus! {

/// The access byte of a segment descriptor: an 8-bit set of named flags.
///
/// Named bits: `P` (present, bit 7), `DPL` (descriptor privilege level,
/// bits 5-6), `S` (descriptor type, bit 4), `E` (executable, bit 3),
/// `DC` (direction/conforming, bit 2), `RW` (readable/writable, bit 1),
/// `A` (accessed, bit 0).
#[derive(Clone, Copy, Debug, Default, PartialEq, Eq, Structural)]
pub struct AccessByte {
    bits: u8,
}

/// An access byte is nothing but its raw bits: rebuilding one from its own
/// bits gives the value back.
pub proof fn lemma_access_byte_from_bits(f: AccessByte)
    ensures
        AccessByte::spec_from_bits(f.spec_bits()) == f,
{
}

/// A flag set is nothing but its raw bits: rebuilding one from its own bits
/// gives the value back.
pub proof fn lemma_flags_from_bits(f: Flags)
    ensures
        Flags::spec_from_bits(f.spec_bits()) == f,
{
}

impl AccessByte {
    /// The raw bits of this access byte.
    pub closed spec fn spec_bits(&self) -> u8 {
        self.bits
    }

    /// The value holding exactly the given raw bits.
    pub closed spec fn spec_from_bits(bits: u8) -> AccessByte {
        AccessByte { bits }
    }

    /// Returns the raw bits of this access byte.
    #[verifier::when_used_as_spec(spec_bits)]
    pub fn bits(&self) -> (r: u8)
        ensures
            r == self.spec_bits(),
    {
        self.bits
    }

    /// The empty set: no flag bit set.
    pub fn empty() -> (r: AccessByte)
        ensures
            r.spec_bits() == 0,
            r == AccessByte::spec_from_bits(0),
    {
        AccessByte { bits: 0 }
    }

    /// Retains an arbitrary byte as an access byte, keeping every bit.
    /// Needed to round-trip a value unpacked from an already-encoded entry.
    pub fn from_bits_retain(bits: u8) -> (r: AccessByte)
        ensures
            r.spec_bits() == bits,
            r == AccessByte::spec_from_bits(bits),
    {
        AccessByte { bits }
    }

    /// Present bit. Must be set if the segment is valid.
    pub fn p() -> (r: AccessByte)
        ensures
            r.spec_bits() == 0x80,
    {
        AccessByte { bits: 0x80 }
    }

    /// Descriptor privilege level field: both bits of the two-bit ring field.
    pub fn dpl() -> (r: AccessByte)
        ensures
            r.spec_bits() == 0x60,
    {
        AccessByte { bits: 0x60 }
    }

    /// Descriptor type bit. Clear for a system segment, set for code or data.
    pub fn s() -> (r: AccessByte)
        ensures
            r.spec_bits() == 0x10,
    {
        AccessByte { bits: 0x10 }
    }

    /// Executable bit. Clear for a data segment, set for a code segment.
    pub fn e() -> (r: AccessByte)
        ensures
            r.spec_bits() == 0x08,
    {
        AccessByte { bits: 0x08 }
    }

    /// Direction bit for data segments, conforming bit for code segments.
    pub fn dc() -> (r: AccessByte)
        ensures
            r.spec_bits() == 0x04,
    {
        AccessByte { bits: 0x04 }
    }

    /// Readable bit for code segments, writable bit for data segments.
    pub fn rw() -> (r: AccessByte)
        ensures
            r.spec_bits() == 0x02,
    {
        AccessByte { bits: 0x02 }
    }

    /// Accessed bit. Clear while the segment has never been accessed.
    pub fn a() -> (r: AccessByte)
        ensures
            r.spec_bits() == 0x01,
    {
        AccessByte { bits: 0x01 }
    }

    /// Bitwise union of two flag sets.
    pub fn union(self, other: AccessByte) -> (r: AccessByte)
        ensures
            r.spec_bits() == (self.spec_bits() | other.spec_bits()),
    {
        AccessByte { bits: self.bits | other.bits }
    }

    /// Whether every bit of `other` is set in `self`.
    pub fn contains(self, other: AccessByte) -> (r: bool)
        ensures
            r == (self.spec_bits() & other.spec_bits() == other.spec_bits()),
    {
        self.bits & other.bits == other.bits
    }

    /// The text `describe` returns: the names of the named flags wholly
    /// contained in the value, each followed by one space.
    pub open spec fn spec_describe(&self) -> Seq<char> {
        (if self.spec_bits() & 0x80 == 0x80 { "P "@ } else { Seq::<char>::empty() })
        + (if self.spec_bits() & 0x60 == 0x60 { "DPL "@ } else { Seq::<char>::empty() })
        + (if self.spec_bits() & 0x10 == 0x10 { "S "@ } else { Seq::<char>::empty() })
        + (if self.spec_bits() & 0x08 == 0x08 { "E "@ } else { Seq::<char>::empty() })
        + (if self.spec_bits() & 0x04 == 0x04 { "DC "@ } else { Seq::<char>::empty() })
        + (if self.spec_bits() & 0x02 == 0x02 { "RW "@ } else { Seq::<char>::empty() })
        + (if self.spec_bits() & 0x01 == 0x01 { "A "@ } else { Seq::<char>::empty() })
    }

    /// A human-readable enumeration of the named flags set in this value.
    pub fn describe(&self) -> (r: String)
        ensures
            r@ == self.spec_describe(),
    {
        let mut out = String::new();
        if self.bits & 0x80 == 0x80 {
            out.append("P ");
        }
        if self.bits & 0x60 == 0x60 {
            out.append("DPL ");
        }
        if self.bits & 0x10 == 0x10 {
            out.append("S ");
        }
        if self.bits & 0x08 == 0x08 {
            out.append("E ");
        }
        if self.bits & 0x04 == 0x04 {
            out.append("DC ");
        }
        if self.bits & 0x02 == 0x02 {
            out.append("RW ");
        }
        if self.bits & 0x01 == 0x01 {
            out.append("A ");
        }
        proof {
            assert(out@ =~= self.spec_describe());
        }
        out
    }
}

/// The flags nibble of a segment descriptor: a 4-bit set of named flags.
///
/// Named bits: `G` (granularity, bit 3), `DB` (size, bit 2), `L` (long-mode
/// code, bit 1).  A value unpacked from an encoded entry always fits in the
/// low 4 bits; `from_bits_retain` nevertheless keeps a full byte, so that an
/// arbitrary byte round-trips unchanged.
#[derive(Clone, Copy, Debug, Default, PartialEq, Eq, Structural)]
pub struct Flags {
    bits: u8,
}

impl Flags {
    /// The raw bits of this flag set.
    pub closed spec fn spec_bits(&self) -> u8 {
        self.bits
    }

    /// The value holding exactly the given raw bits.
    pub closed spec fn spec_from_bits(bits: u8) -> Flags {
        Flags { bits }
    }

    /// Returns the raw bits of this flag set.
    #[verifier::when_used_as_spec(spec_bits)]
    pub fn bits(&self) -> (r: u8)
        ensures
            r == self.spec_bits(),
    {
        self.bits
    }

    /// The empty set: no flag bit set.
    pub fn empty() -> (r: Flags)
        ensures
            r.spec_bits() == 0,
            r == Flags::spec_from_bits(0),
    {
        Flags { bits: 0 }
    }

    /// Retains an arbitrary byte as a flag set, keeping every bit.
    pub fn from_bits_retain(bits: u8) -> (r: Flags)
        ensures
            r.spec_bits() == bits,
            r == Flags::spec_from_bits(bits),
    {
        Flags { bits }
    }

    /// Granularity bit: limit scales in 4 KiB blocks when set, bytes when clear.
    pub fn g() -> (r: Flags)
        ensures
            r.spec_bits() == 0x08,
    {
        Flags { bits: 0x08 }
    }

    /// Size bit: the descriptor defines a 32-bit segment when set.
    pub fn db() -> (r: Flags)
        ensures
            r.spec_bits() == 0x04,
    {
        Flags { bits: 0x04 }
    }

    /// Long-mode bit: the descriptor defines a 64-bit code segment when set.
    pub fn l() -> (r: Flags)
        ensures
            r.spec_bits() == 0x02,
    {
        Flags { bits: 0x02 }
    }

    /// Bitwise union of two flag sets.
    pub fn union(self, other: Flags) -> (r: Flags)
        ensures
            r.spec_bits() == (self.spec_bits() | other.spec_bits()),
    {
        Flags { bits: self.bits | other.bits }
    }

    /// Whether every bit of `other` is set in `self`.
    pub fn contains(self, other: Flags) -> (r: bool)
        ensures
            r == (self.spec_bits() & other.spec_bits() == other.spec_bits()),
    {
        self.bits & other.bits == other.bits
    }

    /// The text `describe` returns: the names of the named flags wholly
    /// contained in the value, each followed by one space.
    pub open spec fn spec_describe(&self) -> Seq<char> {
        (if self.spec_bits() & 0x08 == 0x08 { "G "@ } else { Seq::<char>::empty() })
        + (if self.spec_bits() & 0x04 == 0x04 { "DB "@ } else { Seq::<char>::empty() })
        + (if self.spec_bits() & 0x02 == 0x02 { "L "@ } else { Seq::<char>::empty() })
    }

    /// A human-readable enumeration of the named flags set in this value.
    pub fn describe(&self) -> (r: String)
        ensures
            r@ == self.spec_describe(),
    {
        let mut out = String::new();
        if self.bits & 0x08 == 0x08 {
            out.append("G ");
        }
        if self.bits & 0x04 == 0x04 {
            out.append("DB ");
        }
        if self.bits & 0x02 == 0x02 {
            out.append("L ");
        }
        proof {
            assert(out@ =~= self.spec_describe());
        }
        out
    }
}

} // verus!
