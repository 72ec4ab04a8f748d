//! The one-byte syllable tag: a serial number in the high nibble, a cluster
//! kind in the low nibble.
use vstd::prelude::*;

verus! {

/// The first serial number of a scan.
pub const FIRST_SERIAL: u8 = 1;

/// The last serial number before the counter wraps back to `FIRST_SERIAL`.
pub const LAST_SERIAL: u8 = 15;

/// The largest cluster kind that fits the low nibble of a tag.
pub const MAX_KIND: u8 = 15;

/// A serial number is never zero and fits four bits.
pub open spec fn valid_serial(serial: u8) -> bool {
    FIRST_SERIAL <= serial <= LAST_SERIAL
}

/// The packed tag byte.
pub open spec fn tag_byte(serial: u8, kind: u8) -> u8 {
    (serial << 4) | kind
}

/// The serial number that follows `serial`.
pub open spec fn next_serial(serial: u8) -> u8 {
    if serial >= LAST_SERIAL {
        FIRST_SERIAL
    } else {
        (serial + 1) as u8
    }
}

/// The serial number carried by the commit with index `k` of a scan.
pub open spec fn serial_at(k: nat) -> u8 {
    (k % 15 + 1) as u8
}

/// A serial number and a cluster kind, before packing.
#[derive(Clone, Copy, Debug, PartialEq, Eq, Structural)]
pub struct SyllableTag {
    pub serial: u8,
    pub kind: u8,
}

impl SyllableTag {
    /// Both fields fit their nibble, and the serial is not zero.
    pub open spec fn wf(self) -> bool {
        valid_serial(self.serial) && self.kind <= MAX_KIND
    }

    /// The byte this tag packs to.
    pub open spec fn byte(self) -> u8 {
        tag_byte(self.serial, self.kind)
    }

    /// Packs the tag into one byte.
    pub fn pack(self) -> (b: u8)
        requires
            self.wf(),
        ensures
            b == self.byte(),
            b == 16 * self.serial + self.kind,
    {
        let s: u8 = self.serial;
        let k: u8 = self.kind;
        assert(s <= 15 && k <= 15 ==> ((s << 4) | k) == 16 * s + k) by (bit_vector);
        (s << 4) | k
    }

    /// Splits a byte into its serial and kind.
    pub fn unpack(b: u8) -> (t: SyllableTag)
        ensures
            t.serial == b / 16,
            t.kind == b % 16,
            t.kind <= MAX_KIND,
            t.byte() == b,
    {
        let s: u8 = b >> 4;
        let k: u8 = b & 0x0f;
        assert(b >> 4 == b / 16) by (bit_vector);
        assert(b & 0x0f == b % 16) by (bit_vector);
        assert(((b >> 4) << 4) | (b & 0x0f) == b) by (bit_vector);
        SyllableTag { serial: s, kind: k }
    }
}

/// Advances a serial number, wrapping from `LAST_SERIAL` to `FIRST_SERIAL`.
pub fn advance_serial(serial: u8) -> (next: u8)
    requires
        valid_serial(serial),
    ensures
        next == next_serial(serial),
        valid_serial(next),
{
    let bumped: u8 = serial + 1;
    if bumped == 16 {
        FIRST_SERIAL
    } else {
        bumped
    }
}

/// Packing loses nothing: the serial and the kind can be read back from the
/// byte, and the byte is `16 * serial + kind`.
pub proof fn lemma_tag_byte_fields(serial: u8, kind: u8)
    requires
        serial <= 15,
        kind <= MAX_KIND,
    ensures
        tag_byte(serial, kind) == 16 * serial + kind,
        tag_byte(serial, kind) / 16 == serial,
        tag_byte(serial, kind) % 16 == kind,
{
    assert(serial <= 15 && kind <= 15 ==> ((serial << 4) | kind) == 16 * serial + kind)
        by (bit_vector);
}

/// A tag with a valid serial is never the zero byte.
pub proof fn lemma_tag_byte_nonzero(serial: u8, kind: u8)
    requires
        valid_serial(serial),
        kind <= MAX_KIND,
    ensures
        tag_byte(serial, kind) >= 16,
{
    lemma_tag_byte_fields(serial, kind);
}

/// The serial numbers of successive commits run 1, 2, ..., 15, 1, 2, ...:
/// the first is `FIRST_SERIAL`, none is zero, and each is followed by its
/// successor.
pub proof fn lemma_serial_cycle(k: nat)
    ensures
        serial_at(0) == FIRST_SERIAL,
        valid_serial(serial_at(k)),
        serial_at(k + 1) == next_serial(serial_at(k)),
        serial_at(k + 15) == serial_at(k),
{
    assert((k + 15) % 15 == k % 15) by (nonlinear_arith);
    assert((k + 1) % 15 == if k % 15 == 14 { 0 } else { k % 15 + 1 }) by (nonlinear_arith);
}

} // verus!
