use vstd::prelude::*;

verus! {

/// Largest value an 8-bit colour channel can take.
pub const MAX_CHANNEL: u32 = 255;

/// A pixel colour after averaging, gamma correction and quantization:
/// one integer per channel, each in `0..=255` for a well-formed value.
#[derive(Default, Debug, Clone, Copy, PartialEq, Eq, Structural)]
pub struct TranslatedColor {
    pub r: u32,
    pub g: u32,
    pub b: u32,
}

impl TranslatedColor {
    /// Every channel lies in the 8-bit range.
    pub open spec fn wf(&self) -> bool {
        &&& self.r <= MAX_CHANNEL
        &&& self.g <= MAX_CHANNEL
        &&& self.b <= MAX_CHANNEL
    }
}

} // verus!
