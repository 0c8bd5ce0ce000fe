use vstd::prelude::*;

verus! {

/// A 16-bit color: five bits of red, six of green and five of blue, red in
/// the most significant bits.
#[derive(Clone, Copy, Debug, PartialEq, Eq, Structural)]
pub struct Rgb565 {
    /// The word that the controller stores for this color.
    pub raw: u16,
}

/// The word for the given channels, each cut to its width.
pub open spec fn rgb565_word(r: u8, g: u8, b: u8) -> u16 {
    ((((r & 0x1f) as u16) << 11u16) | (((g & 0x3f) as u16) << 5u16) | ((b & 0x1f) as u16)) as u16
}

impl Rgb565 {
    /// A color from its channels; bits above a channel's width are dropped.
    pub fn new(r: u8, g: u8, b: u8) -> (c: Rgb565)
        ensures
            c.raw == rgb565_word(r, g, b),
    {
        let rs: u16 = (r & 0x1f) as u16;
        let gs: u16 = (g & 0x3f) as u16;
        let bs: u16 = (b & 0x1f) as u16;
        Rgb565 { raw: (rs << 11u16) | (gs << 5u16) | bs }
    }

    /// A color from the word that the controller stores.
    pub fn from_raw(raw: u16) -> (c: Rgb565)
        ensures
            c.raw == raw,
    {
        Rgb565 { raw }
    }

    /// The word that the controller stores for this color.
    pub fn into_raw(self) -> (w: u16)
        ensures
            w == self.raw,
    {
        self.raw
    }
}

} // verus!
