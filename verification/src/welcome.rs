//! Selection of the welcome notification played the first time a chatter is
//! seen. A uniform draw over the percentages 0..=99 is mapped to one of five
//! variants with the bucket widths 21, 20, 20, 20, 19: the slight asymmetry
//! comes from the inclusive integer bucket boundaries and is deliberate.

use vstd::prelude::*;

verus! {

/// The variant chosen for a given percentage draw: bucket boundaries at
/// 21, 41, 61 and 81.
pub open spec fn spec_welcome_variant(percent: u8) -> u8 {
    if percent <= 20 {
        0
    } else if percent <= 40 {
        1
    } else if percent <= 60 {
        2
    } else if percent <= 80 {
        3
    } else {
        4
    }
}

/// Maps a percentage draw to the welcome variant to play.
pub fn welcome_variant(percent: u8) -> (v: u8)
    ensures
        v == spec_welcome_variant(percent),
        v <= 4,
{
    if percent <= 20 {
        0
    } else if percent <= 40 {
        1
    } else if percent <= 60 {
        2
    } else if percent <= 80 {
        3
    } else {
        4
    }
}

/// Relies on rand::random_range: a uniform draw from the half-open range
/// handed to it, here the percentages 0..=99.
#[verifier::external_body]
pub(crate) fn draw_percent() -> (r: u8)
    ensures
        r < 100,
{
    rand::random_range(0u8..100u8)
}

} // verus!
