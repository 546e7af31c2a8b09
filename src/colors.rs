//! The theme's colors, as red, green and blue components.
use vstd::prelude::*;

verus! {

pub const BACKGROUND: (u8, u8, u8) = (69, 65, 73);

pub const WIDGET_BACKGROUND: (u8, u8, u8) = (75, 54, 78);

pub const HIGHLIGHT: (u8, u8, u8) = (255, 45, 128);

pub const PURPLE: (u8, u8, u8) = (118, 72, 151);

} // verus!
