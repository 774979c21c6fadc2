use vstd::prelude::*;

use crate::film::Film;

verus! {

/// The packed `0xRRGGBB` value of an 8-bit colour.
pub open spec fn hex_of(rgb: [u8; 3]) -> nat {
    rgb[0] as nat * 65536 + rgb[1] as nat * 256 + rgb[2] as nat
}

/// Packs an 8-bit colour into a 24-bit integer `0xRRGGBB`, for live display.
pub fn to_hex_color(rgb: [u8; 3]) -> (r: u32)
    ensures
        r == hex_of(rgb),
        r < 0x1000000,
{
    let r8 = rgb[0];
    let g8 = rgb[1];
    let b8 = rgb[2];
    let r = ((r8 as u32) << 16u32) | ((g8 as u32) << 8u32) | (b8 as u32);
    assert(r == (r8 as u32) * 65536 + (g8 as u32) * 256 + (b8 as u32) && r < 0x1000000)
        by (bit_vector)
        requires
            r == ((r8 as u32) << 16u32) | ((g8 as u32) << 8u32) | (b8 as u32),
    ;
    r
}

impl Film<[u8; 3]> {
    /// The raster bytes: three channel bytes per pixel, pixels row by row.
    pub fn to_rgb_bytes(&self) -> (r: Vec<u8>)
        requires
            self.wf(),
        ensures
            r@.len() == 3 * self.pixels().len(),
            forall|i: int, c: int|
                0 <= i < self.pixels().len() && 0 <= c < 3 ==> #[trigger] r@[3 * i + c]
                    == self.pixels()[i][c],
    {
        let data = self.to_raw();
        let mut out: Vec<u8> = Vec::new();
        let mut i: usize = 0;
        while i < data.len()
            invariant
                data@ == self.pixels(),
                i <= data@.len(),
                out@.len() == 3 * i,
                forall|k: int, c: int|
                    0 <= k < i && 0 <= c < 3 ==> #[trigger] out@[3 * k + c] == data@[k][c],
            decreases data.len() - i,
        {
            let px = data[i];
            out.push(px[0]);
            out.push(px[1]);
            out.push(px[2]);
            proof {
                assert forall|k: int, c: int|
                    0 <= k < i + 1 && 0 <= c < 3 implies #[trigger] out@[3 * k + c]
                        == data@[k][c] by {
                    if k == i {
                        assert(c == 0 || c == 1 || c == 2);
                    } else {
                        assert(3 * k + c < 3 * i) by (nonlinear_arith)
                            requires
                                0 <= k < i,
                                0 <= c < 3,
                        ;
                    }
                }
            }
            i = i + 1;
        }
        out
    }

    /// The packed `0xRRGGBB` value of every pixel, row by row.
    pub fn to_hex_colors(&self) -> (r: Vec<u32>)
        ensures
            r@.len() == self.pixels().len(),
            forall|i: int| 0 <= i < r@.len() ==> #[trigger] r@[i] == hex_of(self.pixels()[i]),
    {
        let data = self.to_raw();
        let mut out: Vec<u32> = Vec::new();
        let mut i: usize = 0;
        while i < data.len()
            invariant
                data@ == self.pixels(),
                i <= data@.len(),
                out@.len() == i,
                forall|k: int| 0 <= k < i ==> #[trigger] out@[k] == hex_of(data@[k]),
            decreases data.len() - i,
        {
            let h = to_hex_color(data[i]);
            out.push(h);
            i = i + 1;
        }
        out
    }
}

} // verus!
