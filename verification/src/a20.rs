//! The A20-line enable routine, verified over a simulated memory and port
//! bus.
//!
//! While the A20 line is masked, bit 20 of every memory access is forced to
//! zero, so the two test addresses (which differ only in bit 20) alias onto
//! one cell.  The routine writes two different sentinels, reads back, and
//! reports the line masked exactly when the values collide.  If masked, it
//! raises bit 1 of System Control Port A (the legacy fast-A20 path); the
//! simulated chipset honours that command.  Alternate enable mechanisms
//! (keyboard-controller command sequences, BIOS calls) are out of scope by
//! design, matching the narrow hardware assumption of the fast-A20 path.

use vstd::prelude::*;

verus! {

/// The word address one byte below an odd megabyte boundary used by the test.
pub const ODD_MEGABYTE_ADDR: u32 = 0x000F_FFFF;

/// The corresponding address one megabyte higher: the same bits, except
/// bit 20 set.
pub const EVEN_MEGABYTE_ADDR: u32 = 0x001F_FFFF;

/// The sentinel written to the odd-megabyte address.
pub const ODD_SENTINEL: u32 = 0x00C0_FFEE;

/// The sentinel written to the even-megabyte address; differs from
/// `ODD_SENTINEL` so a collision is observable.
pub const EVEN_SENTINEL: u32 = 0xDEAD_BEEF;

/// System Control Port A, the legacy fast-A20 port.
pub const FAST_A20_PORT: u16 = 0x92;

/// The bit of System Control Port A that unmasks the A20 line.
pub const FAST_A20_BIT: u8 = 0x02;

/// The two states of the enable routine's state machine; `Enabled` is
/// terminal.
#[derive(Clone, Copy, Debug, PartialEq, Eq, Structural)]
pub enum A20State {
    Masked,
    Enabled,
}

/// A simulated bus: the two test memory cells, System Control Port A, and
/// whether the A20 line is enabled.  `port_writes` counts port stores, so
/// that contracts can state when the routine issues no hardware command.
#[derive(Clone, Copy, Debug, PartialEq, Eq, Structural)]
pub struct A20Machine {
    /// Whether the A20 line is unmasked.
    pub line_enabled: bool,
    /// The word at the odd-megabyte test address.
    pub odd_word: u32,
    /// The word at the even-megabyte test address.
    pub even_word: u32,
    /// The byte System Control Port A holds.
    pub port_a: u8,
    /// How many stores to System Control Port A have been issued.
    pub port_writes: u64,
}

impl A20Machine {
    /// Well-formedness: while the line is masked the two test addresses
    /// alias onto one cell, so they hold the same word.
    pub open spec fn wf(&self) -> bool {
        !self.line_enabled ==> self.odd_word == self.even_word
    }

    /// Builds a machine in a given state with no port store issued yet.
    pub fn new(line_enabled: bool, word: u32, port_a: u8) -> (r: A20Machine)
        ensures
            r.wf(),
            r.line_enabled == line_enabled,
            r.odd_word == word,
            r.even_word == word,
            r.port_a == port_a,
            r.port_writes == 0,
    {
        A20Machine { line_enabled, odd_word: word, even_word: word, port_a, port_writes: 0 }
    }

    /// Stores a word at the odd-megabyte address.  While the line is masked
    /// the store lands on the single aliased cell, so the even-megabyte
    /// address reads it back too.
    pub fn write_odd(&mut self, v: u32)
        ensures
            final(self).line_enabled == old(self).line_enabled,
            final(self).port_a == old(self).port_a,
            final(self).port_writes == old(self).port_writes,
            final(self).odd_word == v,
            old(self).line_enabled ==> final(self).even_word == old(self).even_word,
            !old(self).line_enabled ==> final(self).even_word == v,
            final(self).wf(),
    {
        self.odd_word = v;
        if !self.line_enabled {
            self.even_word = v;
        }
    }

    /// Stores a word at the even-megabyte address; aliases like `write_odd`.
    pub fn write_even(&mut self, v: u32)
        ensures
            final(self).line_enabled == old(self).line_enabled,
            final(self).port_a == old(self).port_a,
            final(self).port_writes == old(self).port_writes,
            final(self).even_word == v,
            old(self).line_enabled ==> final(self).odd_word == old(self).odd_word,
            !old(self).line_enabled ==> final(self).odd_word == v,
            final(self).wf(),
    {
        self.even_word = v;
        if !self.line_enabled {
            self.odd_word = v;
        }
    }

    /// Reads the word at the odd-megabyte address.
    pub fn read_odd(&self) -> (r: u32)
        ensures
            r == self.odd_word,
    {
        self.odd_word
    }

    /// Reads the word at the even-megabyte address.
    pub fn read_even(&self) -> (r: u32)
        ensures
            r == self.even_word,
    {
        self.even_word
    }

    /// Reads the byte System Control Port A holds.
    pub fn read_port_a(&self) -> (r: u8)
        ensures
            r == self.port_a,
    {
        self.port_a
    }

    /// Stores a byte to System Control Port A.  The simulated chipset
    /// honours the fast-A20 command: the line comes on when the store has
    /// the fast-A20 bit set, and is never masked again.
    pub fn write_port_a(&mut self, v: u8)
        requires
            old(self).port_writes < u64::MAX,
        ensures
            final(self).port_a == v,
            final(self).port_writes == old(self).port_writes + 1,
            final(self).line_enabled == (old(self).line_enabled || (v & FAST_A20_BIT) != 0),
            final(self).odd_word == old(self).odd_word,
            final(self).even_word == old(self).even_word,
            old(self).wf() ==> final(self).wf(),
    {
        self.port_a = v;
        self.port_writes = self.port_writes + 1;
        if v & FAST_A20_BIT != 0 {
            self.line_enabled = true;
        }
    }
}

/// The detection rule: the A20 line is reported enabled if and only if the
/// two test addresses hold different values after both sentinel writes.
pub fn a20_test_outcome(even_read: u32, odd_read: u32) -> (st: A20State)
    ensures
        (st == A20State::Enabled) <==> (even_read != odd_read),
        (st == A20State::Masked) <==> (even_read == odd_read),
{
    if even_read != odd_read {
        A20State::Enabled
    } else {
        A20State::Masked
    }
}

/// The byte the fast-A20 enable stores: the current port byte with the
/// fast-A20 bit raised and every other bit preserved.
pub fn fast_a20_command(port_value: u8) -> (r: u8)
    ensures
        r == (port_value | FAST_A20_BIT),
        r & FAST_A20_BIT == FAST_A20_BIT,
        r & 0xFD == port_value & 0xFD,
{
    proof {
        assert((port_value | 0x02) & 0x02 == 0x02) by (bit_vector);
        assert((port_value | 0x02) & 0xFD == port_value & 0xFD) by (bit_vector);
    }
    port_value | FAST_A20_BIT
}

/// The machine after the detection probe: both sentinels written.  With the
/// line enabled the cells are independent; masked, the second write wins in
/// the single aliased cell.
pub open spec fn spec_probe(m: A20Machine) -> A20Machine {
    A20Machine {
        line_enabled: m.line_enabled,
        odd_word: if m.line_enabled { ODD_SENTINEL } else { EVEN_SENTINEL },
        even_word: EVEN_SENTINEL,
        port_a: m.port_a,
        port_writes: m.port_writes,
    }
}

/// The machine after one run of the enable routine: the probe, then, only
/// if the line was masked, one store of the fast-A20 command.
pub open spec fn spec_enable_a20(m: A20Machine) -> A20Machine {
    let p = spec_probe(m);
    if m.line_enabled {
        p
    } else {
        A20Machine {
            line_enabled: true,
            odd_word: p.odd_word,
            even_word: p.even_word,
            port_a: (m.port_a | FAST_A20_BIT),
            port_writes: (m.port_writes + 1) as u64,
        }
    }
}

/// Runs the detection probe alone: writes the two sentinels, reads the even
/// address back, and reports the line's state.  Detection is exact: the
/// probe answers `Enabled` if and only if the line is enabled, and issues
/// no port store.
pub fn probe_a20(m: &mut A20Machine) -> (st: A20State)
    requires
        old(m).wf(),
    ensures
        *final(m) == spec_probe(*old(m)),
        final(m).wf(),
        (st == A20State::Enabled) <==> old(m).line_enabled,
        final(m).line_enabled == old(m).line_enabled,
        final(m).port_a == old(m).port_a,
        final(m).port_writes == old(m).port_writes,
{
    m.write_odd(ODD_SENTINEL);
    m.write_even(EVEN_SENTINEL);
    let even = m.read_even();
    let odd = m.read_odd();
    a20_test_outcome(even, odd)
}

/// Runs the full enable routine: probe first; if the line is already
/// enabled, terminate at once (the idempotent fast path); otherwise read
/// System Control Port A, raise the fast-A20 bit, and store the result
/// back.  The machine ends with the line enabled, and a port store is
/// issued only when the line was masked.
pub fn enable_a20(m: &mut A20Machine) -> (st: A20State)
    requires
        old(m).wf(),
        old(m).port_writes < u64::MAX,
    ensures
        *final(m) == spec_enable_a20(*old(m)),
        final(m).wf(),
        final(m).line_enabled,
        st == A20State::Enabled,
        old(m).line_enabled ==> final(m).port_writes == old(m).port_writes
            && final(m).port_a == old(m).port_a,
        !old(m).line_enabled ==> final(m).port_writes == old(m).port_writes + 1
            && final(m).port_a == (old(m).port_a | FAST_A20_BIT),
{
    let st = probe_a20(m);
    match st {
        A20State::Enabled => A20State::Enabled,
        A20State::Masked => {
            let current = m.read_port_a();
            let command = fast_a20_command(current);
            m.write_port_a(command);
            proof {
                assert((current | 0x02) & 0x02 != 0) by (bit_vector);
            }
            A20State::Enabled
        },
    }
}

/// Idempotence law: after one run of the enable routine the line is
/// enabled, and a second run short-circuits, answering `Enabled` while
/// issuing no further port store and leaving the port byte as it was.  On a
/// machine whose line was already enabled a run changes nothing a second
/// run would redo: the routine is a fixpoint there.
pub proof fn lemma_enable_a20_idempotent(m: A20Machine)
    requires
        m.wf(),
        m.port_writes < u64::MAX,
    ensures
        spec_enable_a20(m).line_enabled,
        spec_enable_a20(spec_enable_a20(m)).line_enabled,
        spec_enable_a20(spec_enable_a20(m)).port_writes == spec_enable_a20(m).port_writes,
        spec_enable_a20(spec_enable_a20(m)).port_a == spec_enable_a20(m).port_a,
        m.line_enabled ==> spec_enable_a20(spec_enable_a20(m)) == spec_enable_a20(m),
{
}

} // verus!
