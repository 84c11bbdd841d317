//! Colors of the scribble-strip backgrounds.
use vstd::prelude::*;

verus! {

#[derive(Clone, Copy, Debug, PartialEq, Eq, Structural)]
pub struct RgbColor {
    pub red: u8,
    pub green: u8,
    pub blue: u8,
}

pub fn black() -> (r: RgbColor)
    ensures
        r == (RgbColor { red: 0, green: 0, blue: 0 }),
{
    RgbColor { red: 0, green: 0, blue: 0 }
}

pub fn white() -> (r: RgbColor)
    ensures
        r == (RgbColor { red: 255, green: 255, blue: 255 }),
{
    RgbColor { red: 255, green: 255, blue: 255 }
}

pub fn amber() -> (r: RgbColor)
    ensures
        r == (RgbColor { red: 255, green: 191, blue: 0 }),
{
    RgbColor { red: 255, green: 191, blue: 0 }
}

} // verus!
