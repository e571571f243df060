//! Fill of round point symbols.

use crate::color::Color;
use vstd::prelude::*;

verus! {

/// Fill of a circle: the color at its center and the color at its rim.
#[derive(Debug, Clone, Copy, PartialEq, Eq, Structural)]
pub struct CircleFill {
    /// Color at the center of the circle.
    pub center_color: Color,
    /// Color at the rim of the circle.
    pub side_color: Color,
}

impl From<Color> for CircleFill {
    fn from(value: Color) -> (r: Self) {
        Self { center_color: value, side_color: value }
    }
}

impl vstd::std_specs::convert::FromSpecImpl<Color> for CircleFill {
    open spec fn obeys_from_spec() -> bool {
        true
    }

    open spec fn from_spec(v: Color) -> CircleFill {
        CircleFill { center_color: v, side_color: v }
    }
}

} // verus!
