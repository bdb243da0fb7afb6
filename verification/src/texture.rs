use vstd::prelude::*;

verus! {

/// The texel a lookup reads for the coordinates `(x, y)`, truncated to whole texels,
/// on a level of `width` by `height` texels: a coordinate past an edge wraps around,
/// so the texel is always inside the level.
pub fn update_borders(x: usize, y: usize, width: usize, height: usize) -> (r: (usize, usize))
    requires
        width > 0,
        height > 0,
    ensures
        r == (x % width, y % height),
        r.0 < width,
        r.1 < height,
{
    proof {
        if x < width {
            vstd::arithmetic::div_mod::lemma_small_mod(x as nat, width as nat);
        }
        if y < height {
            vstd::arithmetic::div_mod::lemma_small_mod(y as nat, height as nat);
        }
    }
    let mut x = x;
    let mut y = y;
    if x >= width {
        x = x % width;
    }
    if y >= height {
        y = y % height;
    }
    (x, y)
}

/// The level of detail a lookup reads when `mip_level` is asked of a texture with
/// `level_count` levels: a level past the last reads the last (the coarsest).
pub fn clamp_mip_level(mip_level: usize, level_count: usize) -> (r: usize)
    requires
        level_count > 0,
    ensures
        r == if mip_level >= level_count {
            (level_count - 1) as usize
        } else {
            mip_level
        },
        r < level_count,
{
    if mip_level >= level_count {
        level_count - 1
    } else {
        mip_level
    }
}

} // verus!
