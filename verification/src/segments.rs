//! Which segments of the display are lit, and the glyph of each decimal digit.
//!
//! A [`Segments`] value says which segments are lit. How a lit segment is
//! driven electrically is decided in one place only, [`Segments::to_output_pattern`]:
//! the display is wired common-anode, so a lit segment pulls its line low.

use vstd::prelude::*;
use crate::registers::{Register, Request};

verus! {

/// One of the eight segment lines of the display.
#[derive(Clone, Copy, Debug, PartialEq, Eq, Structural)]
pub enum Segment {
    A,
    B,
    C,
    D,
    E,
    F,
    G,
    Dot,
}

impl Segment {
    /// The bit of the output port that is wired to this segment.
    pub open spec fn spec_mask(self) -> u8 {
        match self {
            Segment::A => 0x01,
            Segment::B => 0x02,
            Segment::C => 0x04,
            Segment::D => 0x08,
            Segment::E => 0x10,
            Segment::F => 0x20,
            Segment::G => 0x40,
            Segment::Dot => 0x80,
        }
    }

    /// The bit of the output port that is wired to this segment.
    #[verifier::when_used_as_spec(spec_mask)]
    pub fn mask(self) -> (m: u8)
        ensures
            m == self.spec_mask(),
    {
        match self {
            Segment::A => 0x01,
            Segment::B => 0x02,
            Segment::C => 0x04,
            Segment::D => 0x08,
            Segment::E => 0x10,
            Segment::F => 0x20,
            Segment::G => 0x40,
            Segment::Dot => 0x80,
        }
    }
}

/// The lit segments of the glyph for `digit`, as a bit mask over the segment lines.
///
/// Anything that is not a decimal digit is shown as the glyph of zero.
///
/// | digit | lit segments  | mask   |
/// |-------|---------------|--------|
/// | 0     | A B C D E F   | `0x3f` |
/// | 1     | B C           | `0x06` |
/// | 2     | A B D E G     | `0x5b` |
/// | 3     | A B C D G     | `0x4f` |
/// | 4     | B C F G       | `0x66` |
/// | 5     | A C D F G     | `0x6d` |
/// | 6     | A C D E F G   | `0x7d` |
/// | 7     | A B C         | `0x07` |
/// | 8     | A B C D E F G | `0x7f` |
/// | 9     | A B C D F G   | `0x6f` |
pub open spec fn glyph(digit: int) -> u8 {
    if digit == 1 {
        0x06
    } else if digit == 2 {
        0x5b
    } else if digit == 3 {
        0x4f
    } else if digit == 4 {
        0x66
    } else if digit == 5 {
        0x6d
    } else if digit == 6 {
        0x7d
    } else if digit == 7 {
        0x07
    } else if digit == 8 {
        0x7f
    } else if digit == 9 {
        0x6f
    } else {
        0x3f
    }
}

/// The byte that lights exactly the segments of `mask` when it is put on the
/// output port: every line inverted, since a lit segment pulls its line low.
pub open spec fn output_pattern(mask: u8) -> u8 {
    !mask
}

/// A set of lit segments.
///
/// Its view is the bit mask over the segment lines: bit `s.mask()` is set exactly
/// when segment `s` is lit.
#[derive(Clone, Copy, Debug, PartialEq, Eq, Structural)]
pub struct Segments {
    bits: u8,
}

impl View for Segments {
    type V = u8;

    closed spec fn view(&self) -> u8 {
        self.bits
    }
}

impl Segments {
    /// Whether `segment` is lit in this set.
    pub open spec fn lit(self, segment: Segment) -> bool {
        self@ & segment.mask() != 0
    }

    /// No segment lit.
    pub fn empty() -> (s: Segments)
        ensures
            s@ == 0,
    {
        Segments { bits: 0 }
    }

    /// The set whose mask is `bits`.
    pub fn from_bits(bits: u8) -> (s: Segments)
        ensures
            s@ == bits,
    {
        Segments { bits }
    }

    /// The mask of the lit segments.
    pub fn bits(&self) -> (b: u8)
        ensures
            b == self@,
    {
        self.bits
    }

    /// This set with `segment` lit as well.
    pub fn with(self, segment: Segment) -> (s: Segments)
        ensures
            s@ == self@ | segment.mask(),
    {
        Segments { bits: self.bits | segment.mask() }
    }

    /// Whether `segment` is lit.
    pub fn contains(&self, segment: Segment) -> (b: bool)
        ensures
            b == self.lit(segment),
    {
        self.bits & segment.mask() != 0
    }

    /// The segments lit in either set.
    pub fn union(self, other: Segments) -> (s: Segments)
        ensures
            s@ == self@ | other@,
    {
        Segments { bits: self.bits | other.bits }
    }

    /// The segments that are not lit in this set.
    pub fn complement(self) -> (s: Segments)
        ensures
            s@ == !self@,
    {
        Segments { bits: !self.bits }
    }

    /// The byte to put on the output port so that exactly the lit segments light up.
    ///
    /// The lines are active-low: the bit of a lit segment is 0, that of a dark one is 1.
    pub fn to_output_pattern(&self) -> (pattern: u8)
        ensures
            pattern == output_pattern(self@),
    {
        !self.bits
    }

    /// The request that shows these segments on the display.
    pub fn display(&self) -> (request: Request)
        ensures
            request == Request::Store(Register::PortD, output_pattern(self@)),
    {
        Request::Store(Register::PortD, self.to_output_pattern())
    }

    /// The glyph of zero: every segment but G and the dot.
    pub fn zero() -> (s: Segments)
        ensures
            s@ == glyph(0),
    {
        let unlit = Segments::empty().with(Segment::G).with(Segment::Dot);
        assert(!((0u8 | 0x40u8) | 0x80u8) == 0x3fu8) by (bit_vector);
        unlit.complement()
    }

    /// The glyph of one: B and C.
    pub fn one() -> (s: Segments)
        ensures
            s@ == glyph(1),
    {
        assert((0u8 | 0x02u8) | 0x04u8 == 0x06u8) by (bit_vector);
        Segments::empty().with(Segment::B).with(Segment::C)
    }

    /// The glyph of two: every segment but C, F and the dot.
    pub fn two() -> (s: Segments)
        ensures
            s@ == glyph(2),
    {
        let unlit = Segments::empty().with(Segment::C).with(Segment::F).with(Segment::Dot);
        assert(!(((0u8 | 0x04u8) | 0x20u8) | 0x80u8) == 0x5bu8) by (bit_vector);
        unlit.complement()
    }

    /// The glyph of three: every segment but E, F and the dot.
    pub fn three() -> (s: Segments)
        ensures
            s@ == glyph(3),
    {
        let unlit = Segments::empty().with(Segment::E).with(Segment::F).with(Segment::Dot);
        assert(!(((0u8 | 0x10u8) | 0x20u8) | 0x80u8) == 0x4fu8) by (bit_vector);
        unlit.complement()
    }

    /// The glyph of four: B, C, F and G.
    pub fn four() -> (s: Segments)
        ensures
            s@ == glyph(4),
    {
        assert((((0u8 | 0x02u8) | 0x04u8) | 0x20u8) | 0x40u8 == 0x66u8) by (bit_vector);
        Segments::empty().with(Segment::B).with(Segment::C).with(Segment::F).with(Segment::G)
    }

    /// The glyph of five: every segment but B, E and the dot.
    pub fn five() -> (s: Segments)
        ensures
            s@ == glyph(5),
    {
        let unlit = Segments::empty().with(Segment::B).with(Segment::E).with(Segment::Dot);
        assert(!(((0u8 | 0x02u8) | 0x10u8) | 0x80u8) == 0x6du8) by (bit_vector);
        unlit.complement()
    }

    /// The glyph of six: every segment but B and the dot.
    pub fn six() -> (s: Segments)
        ensures
            s@ == glyph(6),
    {
        let unlit = Segments::empty().with(Segment::B).with(Segment::Dot);
        assert(!((0u8 | 0x02u8) | 0x80u8) == 0x7du8) by (bit_vector);
        unlit.complement()
    }

    /// The glyph of seven: A, B and C.
    pub fn seven() -> (s: Segments)
        ensures
            s@ == glyph(7),
    {
        assert(((0u8 | 0x01u8) | 0x02u8) | 0x04u8 == 0x07u8) by (bit_vector);
        Segments::empty().with(Segment::A).with(Segment::B).with(Segment::C)
    }

    /// The glyph of eight: every segment but the dot.
    pub fn eight() -> (s: Segments)
        ensures
            s@ == glyph(8),
    {
        let unlit = Segments::empty().with(Segment::Dot);
        assert(!(0u8 | 0x80u8) == 0x7fu8) by (bit_vector);
        unlit.complement()
    }

    /// The glyph of nine: every segment but E and the dot.
    pub fn nine() -> (s: Segments)
        ensures
            s@ == glyph(9),
    {
        let unlit = Segments::empty().with(Segment::E).with(Segment::Dot);
        assert(!((0u8 | 0x10u8) | 0x80u8) == 0x6fu8) by (bit_vector);
        unlit.complement()
    }

    /// The glyph of `nr`; a number above nine is shown as zero.
    pub fn from_u8(nr: u8) -> (s: Segments)
        ensures
            s@ == glyph(nr as int),
    {
        match nr {
            0 => Segments::zero(),
            1 => Segments::one(),
            2 => Segments::two(),
            3 => Segments::three(),
            4 => Segments::four(),
            5 => Segments::five(),
            6 => Segments::six(),
            7 => Segments::seven(),
            8 => Segments::eight(),
            9 => Segments::nine(),
            _ => Segments::zero(),
        }
    }
}

/// Two sets with the same mask are the same set.
pub proof fn same_mask_same_segments(a: Segments, b: Segments)
    requires
        a@ == b@,
    ensures
        a == b,
{
}

/// No two decimal digits share a glyph.
pub proof fn glyphs_differ(d: int, e: int)
    requires
        0 <= d <= 9,
        0 <= e <= 9,
        d != e,
    ensures
        glyph(d) != glyph(e),
{
}

/// Whatever is not a decimal digit has the glyph of zero.
pub proof fn glyph_beyond_nine_is_zero(n: int)
    requires
        n < 0 || n > 9,
    ensures
        glyph(n) == glyph(0),
{
}

/// Inverting the lines twice gives the segments back: the output pattern is
/// its own inverse.
pub proof fn output_pattern_is_involution(mask: u8)
    ensures
        output_pattern(output_pattern(mask)) == mask,
{
    assert(!(!mask) == mask) by (bit_vector);
}

/// A segment is lit in a set exactly when its line is low in the output pattern.
pub proof fn lit_segments_are_driven_low(mask: u8, segment: Segment)
    ensures
        (mask & segment.mask() != 0) <==> (output_pattern(mask) & segment.mask() == 0),
{
    let m = segment.mask();
    assert(m == 0x01 || m == 0x02 || m == 0x04 || m == 0x08 || m == 0x10 || m == 0x20 || m == 0x40
        || m == 0x80);
    assert((m == 0x01 || m == 0x02 || m == 0x04 || m == 0x08 || m == 0x10 || m == 0x20 || m == 0x40
        || m == 0x80) ==> ((mask & m != 0) <==> ((!mask) & m == 0))) by (bit_vector);
}

} // verus!
