//! Rendering a board into a packed row-major RGBA byte buffer: alive cells
//! become opaque white, dead cells opaque black.

use vstd::prelude::*;

use crate::grid::Grid;

verus! {

/// The value of a color channel: fully on for an alive cell, fully off for
/// a dead one.
pub open spec fn channel_byte(alive: bool) -> u8 {
    if alive {
        255u8
    } else {
        0u8
    }
}

/// The four bytes of cell `(r, c)` in a `w`-wide row-major buffer, at offset
/// `(r * w + c) * 4`: three color channels matching the cell's liveness and
/// an alpha channel that is always fully opaque.
pub open spec fn cell_pixels_ok(g: Seq<Seq<bool>>, w: int, buf: Seq<u8>, r: int, c: int) -> bool {
    let base = (r * w + c) * 4;
    &&& buf[base] == channel_byte(g[r][c])
    &&& buf[base + 1] == channel_byte(g[r][c])
    &&& buf[base + 2] == channel_byte(g[r][c])
    &&& buf[base + 3] == 255u8
}

/// The buffer is exactly the row-major RGBA image of the `w` x `h` board:
/// 4 bytes per cell, `[255,255,255,255]` for alive, `[0,0,0,255]` for dead.
pub open spec fn pixels_match(g: Seq<Seq<bool>>, w: int, h: int, buf: Seq<u8>) -> bool {
    &&& buf.len() == h * w * 4
    &&& forall|r: int, c: int|
        0 <= r < h && 0 <= c < w ==> #[trigger] cell_pixels_ok(g, w, buf, r, c)
}

/// Serializes the board into a fresh packed pixel buffer, row by row.
pub fn render_grid(g: &Grid) -> (buf: Vec<u8>)
    requires
        g.wf(),
    ensures
        pixels_match(g@, g.width as int, g.height as int, buf@),
{
    let w = g.width;
    let h = g.height;
    let mut buf: Vec<u8> = Vec::new();
    let mut r: usize = 0;
    while r < h
        invariant
            g.wf(),
            w == g.width,
            h == g.height,
            r <= h,
            buf@.len() == r * (w * 4),
            forall|i: int, j: int|
                0 <= i < r && 0 <= j < w ==> #[trigger] cell_pixels_ok(g@, w as int, buf@, i, j),
        decreases h - r,
    {
        let mut c: usize = 0;
        while c < w
            invariant
                g.wf(),
                w == g.width,
                h == g.height,
                r < h,
                c <= w,
                buf@.len() == r * (w * 4) + c * 4,
                forall|i: int, j: int|
                    0 <= i < r && 0 <= j < w ==> #[trigger] cell_pixels_ok(g@, w as int, buf@, i, j),
                forall|j: int|
                    0 <= j < c ==> #[trigger] cell_pixels_ok(g@, w as int, buf@, r as int, j),
            decreases w - c,
        {
            let ghost prev = buf@;
            let chan: u8 = if g.get(r, c) {
                255
            } else {
                0
            };
            buf.push(chan);
            buf.push(chan);
            buf.push(chan);
            buf.push(255);
            proof {
                assert(buf@.len() == prev.len() + 4);
                assert(prev.len() == (r as int) * (w as int) * 4 + (c as int) * 4) by (nonlinear_arith)
                    requires
                        prev.len() == (r as int) * ((w as int) * 4) + (c as int) * 4,
                ;
                assert forall|i: int| 0 <= i < prev.len() implies buf@[i] == prev[i] by {}
                assert(cell_pixels_ok(g@, w as int, buf@, r as int, c as int)) by {
                    assert(((r as int) * (w as int) + c as int) * 4 == (r as int) * (w as int) * 4
                        + (c as int) * 4) by (nonlinear_arith);
                }
                assert forall|i: int, j: int|
                    0 <= i < r && 0 <= j < w implies #[trigger] cell_pixels_ok(
                    g@,
                    w as int,
                    buf@,
                    i,
                    j,
                ) by {
                    assert(cell_pixels_ok(g@, w as int, prev, i, j));
                    let base = (i * (w as int) + j) * 4;
                    assert(0 <= base && base + 3 < prev.len()) by (nonlinear_arith)
                        requires
                            base == (i * (w as int) + j) * 4,
                            0 <= i < r as int,
                            0 <= j < w as int,
                            prev.len() == (r as int) * ((w as int) * 4) + (c as int) * 4,
                            0 <= c as int,
                    ;
                    assert(buf@[base] == prev[base]);
                    assert(buf@[base + 1] == prev[base + 1]);
                    assert(buf@[base + 2] == prev[base + 2]);
                    assert(buf@[base + 3] == prev[base + 3]);
                }
                assert forall|j: int|
                    0 <= j < c + 1 implies #[trigger] cell_pixels_ok(
                    g@,
                    w as int,
                    buf@,
                    r as int,
                    j,
                ) by {
                    if j < c {
                        assert(cell_pixels_ok(g@, w as int, prev, r as int, j));
                        let base = ((r as int) * (w as int) + j) * 4;
                        assert(0 <= base && base + 3 < prev.len()) by (nonlinear_arith)
                            requires
                                base == ((r as int) * (w as int) + j) * 4,
                                0 <= j < c as int,
                                prev.len() == (r as int) * ((w as int) * 4) + (c as int) * 4,
                                0 <= r as int,
                                0 <= w as int,
                        ;
                        assert(buf@[base] == prev[base]);
                        assert(buf@[base + 1] == prev[base + 1]);
                        assert(buf@[base + 2] == prev[base + 2]);
                        assert(buf@[base + 3] == prev[base + 3]);
                    }
                }
            }
            c = c + 1;
        }
        proof {
            assert((r as int) * ((w as int) * 4) + (w as int) * 4 == ((r as int) + 1) * ((
            w as int) * 4)) by (nonlinear_arith);
        }
        r = r + 1;
    }
    proof {
        assert((h as int) * ((w as int) * 4) == (h as int) * (w as int) * 4) by (nonlinear_arith);
    }
    buf
}

} // verus!
