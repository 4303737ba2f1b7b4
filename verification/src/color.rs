use crate::scalar::Scalar;
use vstd::prelude::*;
use vstd::std_specs::cmp::PartialEqSpecImpl;

verus! {

/// A colour: red, green and blue, unclamped.
///
/// Two colours are `==` when their channels are numerically equal, one by
/// one: the two zeros are equal, and a NaN equals nothing.
#[derive(Clone, Copy, Debug)]
pub struct Color {
    components: [Scalar; 3],
}

impl Color {
    /// The three channels in order: red, green, blue.
    pub closed spec fn channels(self) -> Seq<Scalar> {
        self.components@
    }

    /// Whether every channel is `0.0`.
    pub open spec fn is_black(self) -> bool {
        self.channels() == seq![Scalar::zero(), Scalar::zero(), Scalar::zero()]
    }

    /// Whether every channel is `1.0`.
    pub open spec fn is_white(self) -> bool {
        self.channels() == seq![Scalar::one(), Scalar::one(), Scalar::one()]
    }

    /// Whether the two colours agree numerically in every channel.
    pub open spec fn same_color(self, other: Color) -> bool {
        &&& self.channels()[0].same_value(other.channels()[0])
        &&& self.channels()[1].same_value(other.channels()[1])
        &&& self.channels()[2].same_value(other.channels()[2])
    }

    pub fn new(r: Scalar, g: Scalar, b: Scalar) -> (color: Color)
        ensures
            color.channels() == seq![r, g, b],
    {
        let color = Color { components: [r, g, b] };
        assert(color.channels() =~= seq![r, g, b]);
        color
    }

    pub fn components(&self) -> (components: &[Scalar; 3])
        ensures
            components@ == self.channels(),
    {
        &self.components
    }

    /// No light at all: every channel `0.0`.
    pub fn black() -> (color: Color)
        ensures
            color.is_black(),
    {
        Color::new(Scalar::zero(), Scalar::zero(), Scalar::zero())
    }

    /// Full light: every channel `1.0`.
    pub fn white() -> (color: Color)
        ensures
            color.is_white(),
    {
        Color::new(Scalar::one(), Scalar::one(), Scalar::one())
    }
}

impl PartialEq for Color {
    fn eq(&self, other: &Color) -> (r: bool) {
        self.components[0].equals(&other.components[0]) && self.components[1].equals(
            &other.components[1],
        ) && self.components[2].equals(&other.components[2])
    }
}

impl PartialEqSpecImpl for Color {
    open spec fn obeys_eq_spec() -> bool {
        true
    }

    open spec fn eq_spec(&self, other: &Color) -> bool {
        self.same_color(*other)
    }
}

} // verus!
