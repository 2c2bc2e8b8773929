//! Decoding of packed 24-bit colors, as supplied in renderer configuration.

use vstd::prelude::*;

verus! {

/// Decodes a packed `0xRRGGBB` integer into its three 8-bit channels:
/// red in bits 16-23, green in bits 8-15, blue in bits 0-7.
pub fn decode_packed_color(packed: u32) -> (rgb: (u8, u8, u8))
    ensures
        rgb.0 == (packed >> 16) & 0xFF,
        rgb.1 == (packed >> 8) & 0xFF,
        rgb.2 == packed & 0xFF,
{
    proof {
        assert((packed >> 16) & 0xFF <= 0xFF && (packed >> 8) & 0xFF <= 0xFF && packed & 0xFF
            <= 0xFF) by (bit_vector);
    }
    let r = ((packed >> 16) & 0xFF) as u8;
    let g = ((packed >> 8) & 0xFF) as u8;
    let b = (packed & 0xFF) as u8;
    (r, g, b)
}

} // verus!

