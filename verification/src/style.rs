//! Plain values that a layout carries: directions, lengths, colours and
//! element identities.
//!
//! Fractional magnitudes are carried as the bit pattern of their IEEE 754
//! single-precision value (`f32::to_bits`), so that the layout hands them
//! through exactly as it got them.

use vstd::prelude::*;

verus! {

/// The axis along which a group arranges its children.
#[derive(Clone, Copy, Debug, PartialEq, Eq, Structural)]
pub enum SplitDirection {
    /// Children stand side by side, left to right.
    Horizontal,
    /// Children stand one above the other, top to bottom.
    Vertical,
}

impl Default for SplitDirection {
    fn default() -> (d: Self)
        ensures
            d == SplitDirection::Horizontal,
    {
        SplitDirection::Horizontal
    }
}

/// A length along one axis. The payload of each definite variant is the bit
/// pattern of a single-precision magnitude.
#[derive(Clone, Copy, Debug, PartialEq, Eq, Structural)]
pub enum Length {
    /// Left to the layout engine.
    Auto,
    /// A number of pixels.
    Pixels(u32),
    /// A multiple of the root font size.
    Rems(u32),
    /// A fraction of the parent's extent; one is the whole of it.
    Fraction(u32),
}

/// The bit pattern of `1.0`.
pub const ONE_BITS: u32 = 0x3F80_0000;

/// The bit pattern of `0.5`.
pub const HALF_BITS: u32 = 0x3F00_0000;

/// The bit pattern of the single-precision value nearest to `0.3`.
pub const THREE_TENTHS_BITS: u32 = 0x3E99_999A;

impl Length {
    /// The whole extent of the parent.
    pub open spec fn spec_full() -> Length {
        Length::Fraction(ONE_BITS)
    }

    /// The whole extent of the parent.
    #[verifier::when_used_as_spec(spec_full)]
    pub fn full() -> (l: Length)
        ensures
            l == Length::spec_full(),
    {
        Length::Fraction(ONE_BITS)
    }
}

/// A width and a height, each a length of its own.
#[derive(Clone, Copy, Debug, PartialEq, Eq, Structural)]
pub struct Size {
    pub width: Length,
    pub height: Length,
}

impl Size {
    /// The size that covers the parent in both directions.
    pub open spec fn spec_full() -> Size {
        Size { width: Length::spec_full(), height: Length::spec_full() }
    }

    /// The size that covers the parent in both directions.
    #[verifier::when_used_as_spec(spec_full)]
    pub fn full() -> (s: Size)
        ensures
            s == Size::spec_full(),
    {
        Size { width: Length::full(), height: Length::full() }
    }
}

/// A colour by hue, saturation, lightness and opacity, each the bit pattern
/// of a single-precision value between zero and one.
#[derive(Clone, Copy, Debug, PartialEq, Eq, Structural)]
pub struct Hsla {
    pub h: u32,
    pub s: u32,
    pub l: u32,
    pub a: u32,
}

impl Hsla {
    /// Opaque pure red: hue 0, saturation 1, lightness 0.5.
    pub open spec fn spec_red() -> Hsla {
        Hsla { h: 0, s: ONE_BITS, l: HALF_BITS, a: ONE_BITS }
    }

    /// Opaque pure red: hue 0, saturation 1, lightness 0.5.
    #[verifier::when_used_as_spec(spec_red)]
    pub fn red() -> (c: Hsla)
        ensures
            c == Hsla::spec_red(),
    {
        Hsla { h: 0, s: ONE_BITS, l: HALF_BITS, a: ONE_BITS }
    }

    /// The opaque grey-green that a pane is filled with until it is given a
    /// colour: hue, saturation and lightness all 0.3.
    pub open spec fn spec_placeholder() -> Hsla {
        Hsla { h: THREE_TENTHS_BITS, s: THREE_TENTHS_BITS, l: THREE_TENTHS_BITS, a: ONE_BITS }
    }

    /// The opaque grey-green that a pane is filled with until it is given a
    /// colour: hue, saturation and lightness all 0.3.
    #[verifier::when_used_as_spec(spec_placeholder)]
    pub fn placeholder() -> (c: Hsla)
        ensures
            c == Hsla::spec_placeholder(),
    {
        Hsla { h: THREE_TENTHS_BITS, s: THREE_TENTHS_BITS, l: THREE_TENTHS_BITS, a: ONE_BITS }
    }
}

/// What an [`ElementId`] stands for: the number, or the name's characters.
pub enum ElementIdView {
    Integer(u64),
    Name(Seq<char>),
}

/// The identity of an element, by which a host keeps interaction state
/// across renders.
#[derive(Debug, PartialEq, Eq)]
pub enum ElementId {
    Integer(u64),
    Name(String),
}

impl View for ElementId {
    type V = ElementIdView;

    open spec fn view(&self) -> ElementIdView {
        match self {
            ElementId::Integer(n) => ElementIdView::Integer(*n),
            ElementId::Name(s) => ElementIdView::Name(s@),
        }
    }
}

impl ElementId {
    /// The identity with the given name.
    pub fn name(s: &str) -> (id: ElementId)
        ensures
            id@ == ElementIdView::Name(s@),
    {
        ElementId::Name(s.to_owned())
    }

    /// The identity with the given number.
    pub fn integer(n: u64) -> (id: ElementId)
        ensures
            id@ == ElementIdView::Integer(n),
    {
        ElementId::Integer(n)
    }
}

} // verus!
