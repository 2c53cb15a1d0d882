//! The brightness curve applied to grey samples before dithering.
//!
//! A sample `v` becomes `255 * (v / 255) ^ (1 / 5.14)`, cut off to a whole
//! number. The curve is kept as a table of its 256 values.

use vstd::prelude::*;

verus! {

/// The curve, indexed by the sample before correction.
pub const GAMMA_CURVE: [u8; 256] = [
    0, 86, 99, 107, 113, 118, 122, 126, 130, 133, 135, 138, 140, 142, 144, 146,
    148, 150, 152, 153, 155, 156, 158, 159, 161, 162, 163, 164, 165, 167, 168, 169,
    170, 171, 172, 173, 174, 175, 176, 176, 177, 178, 179, 180, 181, 181, 182, 183,
    184, 185, 185, 186, 187, 187, 188, 189, 189, 190, 191, 191, 192, 193, 193, 194,
    194, 195, 196, 196, 197, 197, 198, 198, 199, 199, 200, 200, 201, 202, 202, 203,
    203, 204, 204, 204, 205, 205, 206, 206, 207, 207, 208, 208, 209, 209, 209, 210,
    210, 211, 211, 212, 212, 212, 213, 213, 214, 214, 214, 215, 215, 216, 216, 216,
    217, 217, 218, 218, 218, 219, 219, 219, 220, 220, 220, 221, 221, 221, 222, 222,
    222, 223, 223, 224, 224, 224, 224, 225, 225, 225, 226, 226, 226, 227, 227, 227,
    228, 228, 228, 229, 229, 229, 229, 230, 230, 230, 231, 231, 231, 232, 232, 232,
    232, 233, 233, 233, 234, 234, 234, 234, 235, 235, 235, 235, 236, 236, 236, 236,
    237, 237, 237, 238, 238, 238, 238, 239, 239, 239, 239, 240, 240, 240, 240, 241,
    241, 241, 241, 242, 242, 242, 242, 242, 243, 243, 243, 243, 244, 244, 244, 244,
    245, 245, 245, 245, 246, 246, 246, 246, 246, 247, 247, 247, 247, 247, 248, 248,
    248, 248, 249, 249, 249, 249, 249, 250, 250, 250, 250, 250, 251, 251, 251, 251,
    252, 252, 252, 252, 252, 253, 253, 253, 253, 253, 254, 254, 254, 254, 254, 255,
];

/// The corrected value of a sample.
pub open spec fn gamma_level(v: u8) -> u8 {
    GAMMA_CURVE@[v as int]
}

/// The samples of an image after correction.
pub open spec fn gamma_corrected(samples: Seq<u8>) -> Seq<u8> {
    Seq::new(samples.len(), |i: int| gamma_level(samples[i]))
}

/// Corrects one sample.
pub fn gamma_correct(v: u8) -> (corrected: u8)
    ensures
        corrected == gamma_level(v),
{
    GAMMA_CURVE[v as usize]
}

/// Black stays black and white stays white.
pub proof fn lemma_gamma_keeps_black_and_white()
    ensures
        gamma_level(0) == 0,
        gamma_level(255) == 255,
{
}

} // verus!
