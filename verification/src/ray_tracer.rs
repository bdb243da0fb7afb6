use vstd::prelude::*;

verus! {

/// Adds the light gathered at a hit point, already cut to whole units, to one
/// channel of a pixel's color; the channel saturates at 255.
pub fn add_channel(base: u8, light: usize) -> (r: u8)
    ensures
        r as int == if base as int + light as int > 255 {
            255
        } else {
            base as int + light as int
        },
{
    if light > 255 {
        return 255;
    }
    let sum: usize = base as usize + light;
    if sum > 255 {
        255
    } else {
        sum as u8
    }
}

} // verus!
