//! Plain color values exchanged with callers.

use vstd::prelude::*;
use vstd::string::StringExecFns;

verus! {

/// An 8-bit-per-channel RGB triple; the `channels` array repeats the three
/// fields in order.
#[derive(Clone, Copy, Debug, PartialEq, Eq)]
pub struct RGB {
    pub r: u8,
    pub g: u8,
    pub b: u8,
    pub channels: [u8; 3],
}

impl RGB {
    /// The `channels` array agrees with the named fields.
    pub open spec fn wf(&self) -> bool {
        self.channels[0] == self.r && self.channels[1] == self.g && self.channels[2] == self.b
    }

    pub fn new(r: u8, g: u8, b: u8) -> (c: Self)
        ensures
            c.r == r,
            c.g == g,
            c.b == b,
            c.wf(),
    {
        let c = RGB { r, g, b, channels: [r, g, b] };
        c
    }
}

/// The 24-bit value `0xRRGGBB` of a triple.
pub open spec fn spec_rgb_uint24(r: int, g: int, b: int) -> int {
    r * 65536 + g * 256 + b
}

/// The 32-bit value `0xAARRGGBB` of a triple with an opacity byte.
pub open spec fn spec_rgb_uint32(op: int, r: int, g: int, b: int) -> int {
    op * 16777216 + spec_rgb_uint24(r, g, b)
}

/// The same 32 bits read as a signed two's-complement value.
pub open spec fn spec_rgb_sint32(op: int, r: int, g: int, b: int) -> int {
    if spec_rgb_uint32(op, r, g, b) < 0x8000_0000 {
        spec_rgb_uint32(op, r, g, b)
    } else {
        spec_rgb_uint32(op, r, g, b) - 0x1_0000_0000
    }
}

/// Produces three values from an RGB value and an opacity (255 when absent):
/// the 24-bit unsigned `0xRRGGBB`, the 32-bit unsigned `0xAARRGGBB`, and the
/// same 32 bits as a signed integer.
pub fn rgb_to_ints(rgb: &RGB, opacity: Option<u8>) -> (res: (u32, u32, i32))
    ensures
        ({
            let op = if opacity is Some {
                opacity->0 as int
            } else {
                255int
            };
            &&& res.0 == spec_rgb_uint24(rgb.r as int, rgb.g as int, rgb.b as int)
            &&& res.1 == spec_rgb_uint32(op, rgb.r as int, rgb.g as int, rgb.b as int)
            &&& res.2 == spec_rgb_sint32(op, rgb.r as int, rgb.g as int, rgb.b as int)
        }),
{
    let op: u8 = match opacity {
        Some(v) => v,
        None => 255,
    };
    let uint24: u32 = (rgb.r as u32) * 65536 + (rgb.g as u32) * 256 + (rgb.b as u32);
    let uint32: u32 = (op as u32) * 16777216 + uint24;
    let sint32: i32 = if uint32 < 0x8000_0000 {
        uint32 as i32
    } else {
        -((0xFFFF_FFFFu32 - uint32) as i32) - 1
    };
    (uint24, uint32, sint32)
}

/// The default hex format template: lowercase `rgb`, with the opacity byte
/// appended only when it is not fully opaque.
pub fn default_hex_format() -> (s: String)
    ensures
        s@ == "{{r}}{{g}}{{b}}{{z}}"@,
{
    String::from_str("{{r}}{{g}}{{b}}{{z}}")
}

/// A deliberately useless function kept for lint configuration.
pub fn make_clippy_unhappy() -> (v: u32)
    ensures
        v == 0,
{
    0
}

} // verus!
