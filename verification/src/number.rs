//! Single-precision numbers, held by their bit pattern.
//!
//! Positions, velocities and torques travel over the bus as IEEE 754 single
//! precision. The library carries them unchanged and only looks at the few
//! properties that can be read off the bits.

use vstd::prelude::*;

verus! {

/// A single-precision number: sign in bit 31, exponent in bits 30..23,
/// fraction in bits 22..0.
///
/// Two of them compare as numbers do: both zeros are equal, and NaN is equal
/// to nothing.
#[derive(Debug, Clone, Copy)]
pub struct Real32 {
    pub bits: u32,
}

impl PartialEq for Real32 {
    fn eq(&self, other: &Self) -> (r: bool) {
        let a: u32 = self.bits % 0x8000_0000;
        let b: u32 = other.bits % 0x8000_0000;
        a <= 0x7F80_0000 && b <= 0x7F80_0000 && (self.bits == other.bits || (a == 0 && b == 0))
    }
}

impl vstd::std_specs::cmp::PartialEqSpecImpl for Real32 {
    open spec fn obeys_eq_spec() -> bool {
        true
    }

    open spec fn eq_spec(&self, other: &Self) -> bool {
        self.same_number(*other)
    }
}

impl Real32 {
    /// Both are the same number: neither is NaN, and they have the same bits or
    /// are both zero.
    pub open spec fn same_number(self, other: Real32) -> bool {
        &&& !self.nan() && !other.nan()
        &&& self.bits == other.bits || (self.magnitude() == 0 && other.magnitude() == 0)
    }

    /// The bits without the sign. For numbers, a larger magnitude has larger
    /// magnitude bits.
    pub open spec fn magnitude(self) -> int {
        self.bits as int % 0x8000_0000
    }

    /// Neither infinite nor NaN: the exponent is not all ones.
    pub open spec fn finite(self) -> bool {
        self.magnitude() < 0x7F80_0000
    }

    /// Not a number: the exponent is all ones and the fraction is not zero.
    pub open spec fn nan(self) -> bool {
        self.magnitude() > 0x7F80_0000
    }

    /// Whether the sign bit is set.
    pub open spec fn negative(self) -> bool {
        self.bits >= 0x8000_0000
    }

    /// Finite and at least 2^-23 in magnitude, so that it can be divided by.
    pub open spec fn divisor(self) -> bool {
        &&& self.finite()
        &&& self.magnitude() >= 0x3400_0000
    }

    /// The number with the given bit pattern.
    pub fn from_bits(bits: u32) -> (r: Self)
        ensures
            r.bits == bits,
    {
        Real32 { bits }
    }

    /// Whether a quotient by this number can be formed: it is finite and its
    /// magnitude is at least 2^-23.
    pub fn is_divisor(self) -> (r: bool)
        ensures
            r == self.divisor(),
    {
        let magnitude: u32 = self.bits % 0x8000_0000;
        magnitude < 0x7F80_0000 && magnitude >= 0x3400_0000
    }

    /// `self` limited to half a turn either way; NaN is kept.
    pub open spec fn half_turn(self) -> Real32 {
        if self.nan() || self.magnitude() <= 0x3F00_0000 {
            self
        } else if self.negative() {
            Real32 { bits: 0xBF00_0000 }
        } else {
            Real32 { bits: 0x3F00_0000 }
        }
    }

    /// Limits the number to `-0.5..=0.5`. NaN is kept.
    pub fn clamp_half_turn(self) -> (r: Self)
        ensures
            r == self.half_turn(),
    {
        let magnitude: u32 = self.bits % 0x8000_0000;
        if magnitude > 0x7F80_0000 || magnitude <= 0x3F00_0000 {
            self
        } else if self.bits >= 0x8000_0000 {
            Real32 { bits: 0xBF00_0000 }
        } else {
            Real32 { bits: 0x3F00_0000 }
        }
    }
}

/// What the exponent (bits 23 to 30) tells: all ones for infinity and NaN, of
/// which infinity has no fraction; from 104 on the number is at least 2^-23 in
/// magnitude. The sign does not count.
pub proof fn exponent_decides(x: Real32)
    ensures
        x.finite() <==> x.bits as int / 0x80_0000 % 0x100 != 255,
        x.nan() <==> x.bits as int / 0x80_0000 % 0x100 == 255 && x.bits as int % 0x80_0000 != 0,
        x.divisor() <==> 104 <= x.bits as int / 0x80_0000 % 0x100 <= 254,
        x.negative() <==> x.bits as int / 0x8000_0000 == 1,
        x.bits < 0x8000_0000 ==> x.divisor() == (Real32 {
            bits: (x.bits + 0x8000_0000) as u32,
        }).divisor(),
{
}

/// To limit a number to half a turn keeps it where it is at most 0.5 (exponent
/// 126, no fraction) in magnitude, and gives 0.5 with its sign where it is
/// more; to limit it again changes nothing. NaN stays as it is.
pub proof fn half_turn_limits(x: Real32)
    ensures
        x.nan() ==> x.half_turn() == x,
        !x.nan() ==> x.half_turn().bits as int % 0x8000_0000 <= 0x3F00_0000,
        x.bits as int % 0x8000_0000 <= 0x3F00_0000 ==> x.half_turn() == x,
        !x.nan() && x.bits as int % 0x8000_0000 > 0x3F00_0000 ==> x.half_turn().bits as int
            % 0x8000_0000 == 0x3F00_0000,
        (x.half_turn().bits >= 0x8000_0000) == (x.bits >= 0x8000_0000),
        x.half_turn().half_turn() == x.half_turn(),
{
}

/// Numbers compare as they should: in both directions alike, a number with
/// itself unless it is NaN, the two zeros with each other; two numbers that are
/// not zero are the same only with the same bits.
pub proof fn comparison_of_numbers(a: Real32, b: Real32)
    ensures
        a.same_number(b) == b.same_number(a),
        a.same_number(a) <==> !a.nan(),
        (Real32 { bits: 0 }).same_number(Real32 { bits: 0x8000_0000 }),
        a.same_number(b) && a.bits != b.bits ==> a.bits as int % 0x8000_0000 == 0 && b.bits as int
            % 0x8000_0000 == 0,
        a.bits == b.bits && !a.nan() ==> a.same_number(b),
{
}

} // verus!
