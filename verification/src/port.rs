use vstd::prelude::*;

verus! {

/// An 8-bit set of pin flags, one bit per I/O pin (bit `i` stands for pin
/// `i`). Every 8-bit pattern is a valid `Port`: the chip defines no reserved
/// bits for the registers this type is written to or read from.
#[derive(Clone, Copy, PartialEq, Eq, Structural, Debug)]
pub struct Port {
    bits: u8,
}

impl Port {
    /// The raw register byte this flag set stands for.
    pub closed spec fn spec_bits(self) -> u8 {
        self.bits
    }

    /// The `Port` that stands for the raw register byte `bits`.
    pub closed spec fn spec_from_bits(bits: u8) -> Port {
        Port { bits }
    }

    /// Whether pin `i` is set in this flag set.
    pub open spec fn spec_pin(self, i: u8) -> bool
        recommends
            i < 8,
    {
        self.spec_bits() >> i & 1u8 == 1u8
    }

    /// Decode a raw register byte. Every byte value is accepted.
    pub fn from_bits(bits: u8) -> (r: Port)
        ensures
            r == Port::spec_from_bits(bits),
    {
        Port { bits }
    }

    /// The raw byte, for encoding into a register write.
    pub fn bits(self) -> (r: u8)
        ensures
            r == self.spec_bits(),
    {
        self.bits
    }

    /// The flag set with every pin clear.
    pub fn empty() -> (r: Port)
        ensures
            r == Port::spec_from_bits(0),
    {
        Port { bits: 0 }
    }

    /// The flag for pin 0.
    pub fn p00() -> (r: Port)
        ensures
            r == Port::spec_from_bits(0x01),
    {
        Port { bits: 0x01 }
    }

    /// The flag for pin 1.
    pub fn p01() -> (r: Port)
        ensures
            r == Port::spec_from_bits(0x02),
    {
        Port { bits: 0x02 }
    }

    /// The flag for pin 2.
    pub fn p02() -> (r: Port)
        ensures
            r == Port::spec_from_bits(0x04),
    {
        Port { bits: 0x04 }
    }

    /// The flag for pin 3.
    pub fn p03() -> (r: Port)
        ensures
            r == Port::spec_from_bits(0x08),
    {
        Port { bits: 0x08 }
    }

    /// The flag for pin 4.
    pub fn p04() -> (r: Port)
        ensures
            r == Port::spec_from_bits(0x10),
    {
        Port { bits: 0x10 }
    }

    /// The flag for pin 5.
    pub fn p05() -> (r: Port)
        ensures
            r == Port::spec_from_bits(0x20),
    {
        Port { bits: 0x20 }
    }

    /// The flag for pin 6.
    pub fn p06() -> (r: Port)
        ensures
            r == Port::spec_from_bits(0x40),
    {
        Port { bits: 0x40 }
    }

    /// The flag for pin 7.
    pub fn p07() -> (r: Port)
        ensures
            r == Port::spec_from_bits(0x80),
    {
        Port { bits: 0x80 }
    }

    /// Pin-wise union: a pin is set in the result iff it is set in `self`
    /// or in `other`.
    pub fn union(self, other: Port) -> (r: Port)
        ensures
            r == Port::spec_from_bits(self.spec_bits() | other.spec_bits()),
    {
        Port { bits: self.bits | other.bits }
    }

    /// Pin-wise intersection: a pin is set in the result iff it is set in
    /// both `self` and `other`.
    pub fn intersection(self, other: Port) -> (r: Port)
        ensures
            r == Port::spec_from_bits(self.spec_bits() & other.spec_bits()),
    {
        Port { bits: self.bits & other.bits }
    }

    /// Pin-wise complement: a pin is set in the result iff it is clear in
    /// `self`.
    pub fn complement(self) -> (r: Port)
        ensures
            r == Port::spec_from_bits(!self.spec_bits()),
    {
        Port { bits: !self.bits }
    }

    /// Pin-wise symmetric difference: a pin is set in the result iff it is
    /// set in exactly one of `self` and `other`.
    pub fn symmetric_difference(self, other: Port) -> (r: Port)
        ensures
            r == Port::spec_from_bits(self.spec_bits() ^ other.spec_bits()),
    {
        Port { bits: self.bits ^ other.bits }
    }

    /// Containment test: whether every pin set in `other` is also set in
    /// `self`.
    pub fn contains(self, other: Port) -> (r: bool)
        ensures
            r == (self.spec_bits() & other.spec_bits() == other.spec_bits()),
    {
        self.bits & other.bits == other.bits
    }
}

/// Law: decoding a raw byte and re-encoding it yields the byte back, and
/// re-decoding a flag set's byte yields the same flag set — `Port` and `u8`
/// are in exact one-to-one correspondence.
pub proof fn lemma_port_byte_roundtrip(b: u8, p: Port)
    ensures
        Port::spec_from_bits(b).spec_bits() == b,
        Port::spec_from_bits(p.spec_bits()) == p,
{
}

/// Law: union is pin-wise logical "or".
pub proof fn lemma_union_is_pinwise_or(a: Port, b: Port, i: u8)
    requires
        i < 8,
    ensures
        Port::spec_from_bits(a.spec_bits() | b.spec_bits()).spec_pin(i) == (a.spec_pin(i)
            || b.spec_pin(i)),
{
    let x = a.spec_bits();
    let y = b.spec_bits();
    assert((x | y) >> i & 1u8 == 1u8 <==> (x >> i & 1u8 == 1u8 || y >> i & 1u8 == 1u8))
        by (bit_vector)
        requires
            i < 8,
    ;
}

/// Law: intersection is pin-wise logical "and".
pub proof fn lemma_intersection_is_pinwise_and(a: Port, b: Port, i: u8)
    requires
        i < 8,
    ensures
        Port::spec_from_bits(a.spec_bits() & b.spec_bits()).spec_pin(i) == (a.spec_pin(i)
            && b.spec_pin(i)),
{
    let x = a.spec_bits();
    let y = b.spec_bits();
    assert((x & y) >> i & 1u8 == 1u8 <==> (x >> i & 1u8 == 1u8 && y >> i & 1u8 == 1u8))
        by (bit_vector)
        requires
            i < 8,
    ;
}

/// Law: complement is pin-wise logical "not".
pub proof fn lemma_complement_is_pinwise_not(a: Port, i: u8)
    requires
        i < 8,
    ensures
        Port::spec_from_bits(!a.spec_bits()).spec_pin(i) == !a.spec_pin(i),
{
    let x = a.spec_bits();
    assert((!x) >> i & 1u8 == 1u8 <==> !(x >> i & 1u8 == 1u8)) by (bit_vector)
        requires
            i < 8,
    ;
}

/// Law: symmetric difference is pin-wise logical "exclusive or".
pub proof fn lemma_symmetric_difference_is_pinwise_xor(a: Port, b: Port, i: u8)
    requires
        i < 8,
    ensures
        Port::spec_from_bits(a.spec_bits() ^ b.spec_bits()).spec_pin(i) == (a.spec_pin(i)
            != b.spec_pin(i)),
{
    let x = a.spec_bits();
    let y = b.spec_bits();
    assert((x ^ y) >> i & 1u8 == 1u8 <==> ((x >> i & 1u8 == 1u8) != (y >> i & 1u8 == 1u8)))
        by (bit_vector)
        requires
            i < 8,
    ;
}

} // verus!
