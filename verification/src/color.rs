//! Screen color.
use vstd::prelude::*;

use crate::isqrt::{is_isqrt, isqrt_u64, lemma_isqrt_unique};

verus! {

/// 24-bit RGB color
#[derive(Debug, Clone, Copy, PartialEq, Eq, Hash, Structural)]
pub struct ColorRgb {
    /// Red
    pub r: u8,
    /// Green
    pub g: u8,
    /// Blue
    pub b: u8,
}

impl Default for ColorRgb {
    fn default() -> (c: Self)
        ensures
            c == (ColorRgb { r: 0, g: 0, b: 0 }),
    {
        ColorRgb { r: 0, g: 0, b: 0 }
    }
}

/// Root mean square deviation of one channel from the mean of three, rounded down:
/// `isqrt((channel - mean)^2 / 3)`.
pub open spec fn is_channel_dev(channel: int, mean: int, dev: int) -> bool {
    is_isqrt(((channel - mean) * (channel - mean)) / 3, dev)
}

/// The deviation of `channel` from `mean`: the one `dev` with [`is_channel_dev`].
pub open spec fn channel_dev_spec(channel: int, mean: int) -> int {
    choose|dev: int| is_channel_dev(channel, mean, dev)
}

/// `isqrt((channel - mean)^2 / 3)` on channel values
fn channel_dev(channel: u8, mean: u8) -> (dev: i32)
    ensures
        is_channel_dev(channel as int, mean as int, dev as int),
        dev == channel_dev_spec(channel as int, mean as int),
{
    let d: i32 = channel as i32 - mean as i32;
    assert(0 <= d * d <= 255 * 255) by (nonlinear_arith)
        requires
            -255 <= d <= 255,
    ;
    let sq: i32 = d * d;
    let r = isqrt_u64((sq / 3) as u64);
    assert(r <= 255) by (nonlinear_arith)
        requires
            r * r <= 255 * 255,
            r >= 0,
    ;
    proof {
        let c = channel_dev_spec(channel as int, mean as int);
        assert(is_channel_dev(channel as int, mean as int, r as int));
        lemma_isqrt_unique(((channel - mean) * (channel - mean)) / 3, c, r as int);
    }
    r as i32
}

impl ColorRgb {
    /// Average of the three channels, rounded down.
    pub open spec fn gray_spec(self) -> int {
        (self.r + self.g + self.b) / 3
    }

    /// Average magnitude of components
    pub fn gray(&self) -> (g: u8)
        ensures
            g == self.gray_spec(),
    {
        ((self.r as u16 + self.g as u16 + self.b as u16) / 3) as u8
    }

    /// Red deviation
    pub fn red_dev(&self) -> (d: i32)
        ensures
            is_channel_dev(self.r as int, self.gray_spec(), d as int),
            d == channel_dev_spec(self.r as int, self.gray_spec()),
    {
        let g = self.gray();
        channel_dev(self.r, g)
    }

    /// Green deviation
    pub fn green_dev(&self) -> (d: i32)
        ensures
            is_channel_dev(self.g as int, self.gray_spec(), d as int),
            d == channel_dev_spec(self.g as int, self.gray_spec()),
    {
        let g = self.gray();
        channel_dev(self.g, g)
    }

    /// Blue deviation
    pub fn blue_dev(&self) -> (d: i32)
        ensures
            is_channel_dev(self.b as int, self.gray_spec(), d as int),
            d == channel_dev_spec(self.b as int, self.gray_spec()),
    {
        let g = self.gray();
        channel_dev(self.b, g)
    }
}

} // verus!
