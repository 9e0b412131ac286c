//! Colour: which formula applies to which input.
//!
//! The formulas themselves are arithmetic and are the caller's.  What is
//! decided here is which of them a temperature in kelvin falls under, and
//! which channel of a colour leads when its hue is taken.

use vstd::prelude::*;
use crate::misc::scalar::Scalar;
use crate::misc::vector::Vec3;

verus! {

/// The pattern of `12000.0`: from here on the fitted colour is constant.
pub const HOT_BITS: u32 = 0x463b_8000;

/// The pattern of `965.0`: below it the fitted colour is constant.
pub const COLD_BITS: u32 = 0x4471_4000;

/// The patterns of `1167.0`, `1449.0`, `1902.0`, `3315.0` and `6365.0`: the
/// temperatures at which the fit goes on to its next row of coefficients.
pub const ROW_ONE_BITS: u32 = 0x4491_e000;

pub const ROW_TWO_BITS: u32 = 0x44b5_2000;

pub const ROW_THREE_BITS: u32 = 0x44ed_c000;

pub const ROW_FOUR_BITS: u32 = 0x454f_3000;

pub const ROW_FIVE_BITS: u32 = 0x45c6_e800;

/// The patterns of `1000.0`, `6600.0` and `29800.0`: the three temperatures
/// between which the simple approximation interpolates.
pub const RANGE_FIRST_BITS: u32 = 0x447a_0000;

pub const RANGE_SECOND_BITS: u32 = 0x45ce_4000;

pub const RANGE_THIRD_BITS: u32 = 0x46e8_d000;

/// Which part of the fitted black-body colour a temperature falls under.
#[derive(Clone, Copy, Debug, PartialEq, Eq, Structural)]
pub enum BlenderBand {
    /// At or above 12000 K: the constant colour of the hot end.
    Hot,
    /// Below 965 K: the constant colour of the cold end.
    Cold,
    /// In between: the row of coefficients with this number, from 0 to 5.
    Row(usize),
}

/// Which part of the three-colour approximation a temperature falls under.
#[derive(Clone, Copy, Debug, PartialEq, Eq, Structural)]
pub enum BlackbodySegment {
    /// At or below 1000 K: the first colour.
    First,
    /// Exactly 6600 K: the second colour.
    Second,
    /// At or above 29800 K: the third colour.
    Third,
    /// Below 6600 K: between the first colour and the second.
    Lower,
    /// Anything else: between the second colour and the third.
    Upper,
}

/// The band of a temperature.  The rows begin at 965, 1167, 1449, 1902,
/// 3315 and 6365 K.  A temperature that is not a number falls under row 0.
pub open spec fn band_of(t: Scalar) -> BlenderBand {
    if t.at_least(Scalar { bits: HOT_BITS }) {
        BlenderBand::Hot
    } else if t.less(Scalar { bits: COLD_BITS }) {
        BlenderBand::Cold
    } else if t.at_least(Scalar { bits: ROW_FIVE_BITS }) {
        BlenderBand::Row(5)
    } else if t.at_least(Scalar { bits: ROW_FOUR_BITS }) {
        BlenderBand::Row(4)
    } else if t.at_least(Scalar { bits: ROW_THREE_BITS }) {
        BlenderBand::Row(3)
    } else if t.at_least(Scalar { bits: ROW_TWO_BITS }) {
        BlenderBand::Row(2)
    } else if t.at_least(Scalar { bits: ROW_ONE_BITS }) {
        BlenderBand::Row(1)
    } else {
        BlenderBand::Row(0)
    }
}

/// The segment of a temperature.  A temperature that is not a number falls
/// under the upper segment.
pub open spec fn segment_of(temperature: Scalar) -> BlackbodySegment {
    if temperature.at_most(Scalar { bits: RANGE_FIRST_BITS }) {
        BlackbodySegment::First
    } else if temperature.same_number(Scalar { bits: RANGE_SECOND_BITS }) {
        BlackbodySegment::Second
    } else if temperature.at_least(Scalar { bits: RANGE_THIRD_BITS }) {
        BlackbodySegment::Third
    } else if temperature.less(Scalar { bits: RANGE_SECOND_BITS }) {
        BlackbodySegment::Lower
    } else {
        BlackbodySegment::Upper
    }
}

/// Finds the band of the fitted black-body colour for a temperature.
pub fn blackbody_blender_band(t: Scalar) -> (band: BlenderBand)
    ensures
        band == band_of(t),
        band matches BlenderBand::Row(row) ==> row <= 5,
{
    if t.ge(Scalar::from_bits(HOT_BITS)) {
        BlenderBand::Hot
    } else if t.lt(Scalar::from_bits(COLD_BITS)) {
        BlenderBand::Cold
    } else if t.ge(Scalar::from_bits(ROW_FIVE_BITS)) {
        BlenderBand::Row(5)
    } else if t.ge(Scalar::from_bits(ROW_FOUR_BITS)) {
        BlenderBand::Row(4)
    } else if t.ge(Scalar::from_bits(ROW_THREE_BITS)) {
        BlenderBand::Row(3)
    } else if t.ge(Scalar::from_bits(ROW_TWO_BITS)) {
        BlenderBand::Row(2)
    } else if t.ge(Scalar::from_bits(ROW_ONE_BITS)) {
        BlenderBand::Row(1)
    } else {
        BlenderBand::Row(0)
    }
}

/// Finds the segment of the three-colour approximation for a temperature.
pub fn blackbody_segment(temperature: Scalar) -> (segment: BlackbodySegment)
    ensures
        segment == segment_of(temperature),
{
    if temperature.le(Scalar::from_bits(RANGE_FIRST_BITS)) {
        BlackbodySegment::First
    } else if temperature.equals(Scalar::from_bits(RANGE_SECOND_BITS)) {
        BlackbodySegment::Second
    } else if temperature.ge(Scalar::from_bits(RANGE_THIRD_BITS)) {
        BlackbodySegment::Third
    } else if temperature.lt(Scalar::from_bits(RANGE_SECOND_BITS)) {
        BlackbodySegment::Lower
    } else {
        BlackbodySegment::Upper
    }
}

/// The pattern of `0.5`: above it a lightness counts as light.
pub const HALF_BITS: u32 = 0x3f00_0000;

/// Which formula gives the hue of a colour with lightness.
#[derive(Clone, Copy, Debug, PartialEq, Eq, Structural)]
pub enum HueBranch {
    /// The largest and the smallest channel are equal: no hue.
    Grey,
    /// Red is the largest channel.  `wraps` says that green is below blue, so
    /// that the hue is counted round from the far end.
    Red { wraps: bool },
    /// Green is the largest channel and red is not.
    Green,
    /// Neither red nor green is the largest channel.
    Blue,
}

/// The largest channel of a colour: of red and green the larger, and of that
/// and blue the larger.
pub open spec fn largest_channel(rgb: Vec3) -> Scalar {
    rgb.x.larger(rgb.y).larger(rgb.z)
}

/// The smallest channel of a colour.
pub open spec fn smallest_channel(rgb: Vec3) -> Scalar {
    rgb.x.smaller(rgb.y).smaller(rgb.z)
}

/// The branch of a colour.  A colour with a channel that is not a number in
/// the lead falls under blue.
pub open spec fn hue_branch_of(rgb: Vec3) -> HueBranch {
    let cmax = largest_channel(rgb);
    if cmax.same_number(smallest_channel(rgb)) {
        HueBranch::Grey
    } else if cmax.same_number(rgb.x) {
        HueBranch::Red { wraps: rgb.y.less(rgb.z) }
    } else if cmax.same_number(rgb.y) {
        HueBranch::Green
    } else {
        HueBranch::Blue
    }
}

/// Finds the formula for the hue of a colour with lightness.
pub fn hue_branch(rgb: &Vec3) -> (branch: HueBranch)
    ensures
        branch == hue_branch_of(*rgb),
{
    let cmax = rgb.x.max(rgb.y).max(rgb.z);
    let cmin = rgb.x.min(rgb.y).min(rgb.z);
    if cmax.equals(cmin) {
        HueBranch::Grey
    } else if cmax.equals(rgb.x) {
        HueBranch::Red { wraps: rgb.y.lt(rgb.z) }
    } else if cmax.equals(rgb.y) {
        HueBranch::Green
    } else {
        HueBranch::Blue
    }
}

/// Whether a lightness is above one half, where the saturation is taken
/// against the distance to white rather than to black.
pub fn is_light(lightness: Scalar) -> (r: bool)
    ensures
        r == lightness.greater(Scalar { bits: HALF_BITS }),
{
    lightness.gt(Scalar::from_bits(HALF_BITS))
}

/// The channels of a colour in the order that its hue and value are taken
/// from, and how they came into that order.
#[derive(Clone, Copy, Debug, PartialEq, Eq, Structural)]
pub struct ValueOrder {
    /// The leading channel.
    pub r: Scalar,
    pub g: Scalar,
    pub b: Scalar,
    /// The channel that the chroma is measured from.
    pub min_gb: Scalar,
    /// Whether green and blue changed places.
    pub swapped_gb: bool,
    /// Whether red and green changed places after that.
    pub swapped_rg: bool,
}

/// The order of a colour's channels.  Green and blue change places where
/// green is below blue; then red and green change places where red is below
/// green.  The chroma is measured from blue as it then stands, or, after the
/// second change, from the smaller of green and blue.
pub open spec fn value_order_of(rgb: Vec3) -> ValueOrder {
    let swapped_gb = rgb.y.less(rgb.z);
    let g = if swapped_gb {
        rgb.z
    } else {
        rgb.y
    };
    let b = if swapped_gb {
        rgb.y
    } else {
        rgb.z
    };
    let swapped_rg = rgb.x.less(g);
    if swapped_rg {
        ValueOrder { r: g, g: rgb.x, b, min_gb: rgb.x.smaller(b), swapped_gb, swapped_rg }
    } else {
        ValueOrder { r: rgb.x, g, b, min_gb: b, swapped_gb, swapped_rg }
    }
}

/// Puts the channels of a colour in the order that its hue and value are
/// taken from.
pub fn value_order(rgb: &Vec3) -> (order: ValueOrder)
    ensures
        order == value_order_of(*rgb),
{
    let mut r = rgb.x;
    let mut g = rgb.y;
    let mut b = rgb.z;
    let swapped_gb = g.lt(b);
    if swapped_gb {
        let held = g;
        g = b;
        b = held;
    }
    let mut min_gb = b;
    let swapped_rg = r.lt(g);
    if swapped_rg {
        let held = r;
        r = g;
        g = held;
        min_gb = g.min(b);
    }
    ValueOrder { r, g, b, min_gb, swapped_gb, swapped_rg }
}

} // verus!
