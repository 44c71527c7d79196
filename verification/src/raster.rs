//! Text rasterization: blitting fixed 8x13 glyphs into the framebuffer.
//!
//! `(x, y)` names the baseline of a string's left edge: the glyph cell
//! of character `i` spans columns `x + 8*i .. x + 8*i + 8` and rows
//! `y - 12 ..= y`. Drawing only lights pixels (the background is left
//! alone) and clips per pixel at the panel edges.

use vstd::prelude::*;
use crate::fb::Framebuffer;
use crate::fb::in_bounds;
use crate::fb::pixel;
use crate::font::glyph_bit;
use crate::font::glyph_row;

verus! {

/// Whether the glyph cell for `c`, with its left edge at column `gx`
/// and its baseline (bottom row) at row `gy`, has a lit pixel at
/// (`px`, `py`).
pub open spec fn char_bit(c: char, gx: int, gy: int, px: int, py: int) -> bool {
    &&& gx <= px < gx + 8
    &&& gy - 12 <= py <= gy
    &&& glyph_bit(c, px - gx, py - (gy - 12))
}

/// Whether drawing `s` with the baseline of its left edge at
/// (`ox`, `oy`) lights the pixel (`px`, `py`): some character's glyph
/// cell covers it with a lit bit.
pub open spec fn text_bit(s: Seq<char>, ox: int, oy: int, px: int, py: int) -> bool {
    exists|i: int| 0 <= i < s.len() && char_bit(#[trigger] s[i], ox + 8 * i, oy, px, py)
}

/// The part of a glyph cell already blitted after finishing rows
/// `0..row` and, within `row`, columns `0..col`.
spec fn char_bit_upto(c: char, gx: int, gy: int, px: int, py: int, row: int, col: int) -> bool {
    &&& gx <= px < gx + 8
    &&& gy - 12 <= py <= gy
    &&& {
        let r = py - (gy - 12);
        let cl = px - gx;
        &&& (r < row || (r == row && cl < col))
        &&& glyph_bit(c, cl, r)
    }
}

/// Text never reaches the column `ox + 8 * len(s)`: each character
/// occupies exactly 8 pixels of width.
pub proof fn lemma_text_width_bound(s: Seq<char>, ox: int, oy: int, px: int, py: int)
    requires
        px >= ox + 8 * s.len(),
    ensures
        !text_bit(s, ox, oy, px, py),
{
    assert forall|i: int| 0 <= i < s.len() implies !char_bit(s[i], ox + 8 * i, oy, px, py) by {
        assert(8 * i + 8 <= 8 * s.len());
    }
}

/// Text never reaches left of the column `ox`, nor above the row
/// `oy - 12`, nor below the baseline row `oy`.
pub proof fn lemma_text_box(s: Seq<char>, ox: int, oy: int, px: int, py: int)
    requires
        px < ox || py < oy - 12 || py > oy,
    ensures
        !text_bit(s, ox, oy, px, py),
{
    assert forall|i: int| 0 <= i < s.len() implies !char_bit(s[i], ox + 8 * i, oy, px, py) by {
        assert(8 * i >= 0);
    }
}

/// Extending the drawn prefix by one character adds exactly that
/// character's cell.
proof fn lemma_text_bit_step(s: Seq<char>, ox: int, oy: int, px: int, py: int, i: int)
    requires
        0 <= i < s.len(),
    ensures
        text_bit(s.take(i + 1), ox, oy, px, py) == (text_bit(s.take(i), ox, oy, px, py)
            || char_bit(s[i], ox + 8 * i, oy, px, py)),
{
    if text_bit(s.take(i + 1), ox, oy, px, py) {
        let j = choose|j: int|
            0 <= j < s.take(i + 1).len() && char_bit(
                #[trigger] s.take(i + 1)[j],
                ox + 8 * j,
                oy,
                px,
                py,
            );
        if j < i {
            assert(char_bit(s.take(i)[j], ox + 8 * j, oy, px, py));
            assert(text_bit(s.take(i), ox, oy, px, py));
        } else {
            assert(s.take(i + 1)[i] == s[i]);
        }
    }
    if text_bit(s.take(i), ox, oy, px, py) {
        let j = choose|j: int|
            0 <= j < s.take(i).len() && char_bit(#[trigger] s.take(i)[j], ox + 8 * j, oy, px, py);
        assert(char_bit(s.take(i + 1)[j], ox + 8 * j, oy, px, py));
        assert(text_bit(s.take(i + 1), ox, oy, px, py));
    }
    if char_bit(s[i], ox + 8 * i, oy, px, py) {
        assert(s.take(i + 1)[i] == s[i]);
        assert(char_bit(s.take(i + 1)[i], ox + 8 * i, oy, px, py));
        assert(text_bit(s.take(i + 1), ox, oy, px, py));
    }
}

/// Characters from position `i` on sit at or beyond column 128 and
/// cannot touch an on-panel pixel.
proof fn lemma_text_bit_tail_clipped(s: Seq<char>, ox: int, oy: int, px: int, py: int, i: int)
    requires
        0 <= i <= s.len(),
        ox + 8 * i >= 128,
        px < 128,
    ensures
        text_bit(s, ox, oy, px, py) == text_bit(s.take(i), ox, oy, px, py),
{
    if text_bit(s, ox, oy, px, py) {
        let j = choose|j: int| 0 <= j < s.len() && char_bit(#[trigger] s[j], ox + 8 * j, oy, px, py);
        if j >= i {
            assert(8 * j >= 8 * i);
            assert(false);
        } else {
            assert(char_bit(s.take(i)[j], ox + 8 * j, oy, px, py));
            assert(text_bit(s.take(i), ox, oy, px, py));
        }
    }
    if text_bit(s.take(i), ox, oy, px, py) {
        let j = choose|j: int|
            0 <= j < s.take(i).len() && char_bit(#[trigger] s.take(i)[j], ox + 8 * j, oy, px, py);
        assert(char_bit(s[j], ox + 8 * j, oy, px, py));
        assert(text_bit(s, ox, oy, px, py));
    }
}

/// Blit one glyph cell, lighting its lit bits and leaving every other
/// pixel as it was.
fn draw_char(fbuf: &mut Framebuffer, c: char, gx: i32, gy: i32)
    requires
        old(fbuf).wf(),
        -8 <= gx <= 127,
        0 <= gy <= 43,
    ensures
        final(fbuf).wf(),
        forall|px: int, py: int|
            in_bounds(px, py) ==> pixel(final(fbuf)@, px, py) == (pixel(old(fbuf)@, px, py)
                || char_bit(c, gx as int, gy as int, px, py)),
{
    let mut row: usize = 0;
    while row < 13
        invariant
            fbuf.wf(),
            -8 <= gx <= 127,
            0 <= gy <= 43,
            row <= 13,
            forall|px: int, py: int|
                in_bounds(px, py) ==> pixel(fbuf@, px, py) == (pixel(old(fbuf)@, px, py)
                    || char_bit_upto(c, gx as int, gy as int, px, py, row as int, 0)),
        decreases 13 - row,
    {
        let bits = glyph_row(c, row);
        let mut col: usize = 0;
        while col < 8
            invariant
                fbuf.wf(),
                -8 <= gx <= 127,
                0 <= gy <= 43,
                row < 13,
                col <= 8,
                bits == crate::font::spec_glyph_row(c, row as int),
                forall|px: int, py: int|
                    in_bounds(px, py) ==> pixel(fbuf@, px, py) == (pixel(old(fbuf)@, px, py)
                        || char_bit_upto(c, gx as int, gy as int, px, py, row as int, col as int)),
            decreases 8 - col,
        {
            let lit = (bits >> ((7 - col) as u8)) & 1 == 1;
            let px: i32 = gx + col as i32;
            let py: i32 = gy - 12 + row as i32;
            if lit {
                fbuf.set_pixel(px, py, true);
            }
            proof {
                let gxi = gx as int;
                let gyi = gy as int;
                assert forall|qx: int, qy: int| in_bounds(qx, qy) implies pixel(fbuf@, qx, qy) == (
                pixel(old(fbuf)@, qx, qy) || char_bit_upto(
                    c,
                    gxi,
                    gyi,
                    qx,
                    qy,
                    row as int,
                    col as int + 1,
                )) by {
                    if qx == px as int && qy == py as int {
                        assert(qx - gxi == col as int);
                        assert(qy - (gyi - 12) == row as int);
                    }
                }
            }
            col += 1;
        }
        proof {
            assert forall|px: int, py: int| in_bounds(px, py) implies char_bit_upto(
                c,
                gx as int,
                gy as int,
                px,
                py,
                row as int,
                8,
            ) == char_bit_upto(c, gx as int, gy as int, px, py, row as int + 1, 0) by {}
        }
        row += 1;
    }
    proof {
        assert forall|px: int, py: int| in_bounds(px, py) implies char_bit_upto(
            c,
            gx as int,
            gy as int,
            px,
            py,
            13,
            0,
        ) == char_bit(c, gx as int, gy as int, px, py) by {}
    }
}

impl Framebuffer {
    /// Draw `s` with the baseline of its left edge at (`x`, `y`):
    /// every pixel covered by a lit glyph bit is turned on, every other
    /// pixel keeps its value, and anything off the panel is clipped.
    #[verifier::rlimit(100)]
    pub fn draw_text(&mut self, x: i32, y: i32, s: &str)
        requires
            old(self).wf(),
        ensures
            final(self).wf(),
            forall|px: int, py: int|
                in_bounds(px, py) ==> pixel(final(self)@, px, py) == (pixel(old(self)@, px, py)
                    || text_bit(s@, x as int, y as int, px, py)),
    {
        if y < 0 || y > 43 {
            proof {
                assert forall|px: int, py: int| in_bounds(px, py) implies !text_bit(
                    s@,
                    x as int,
                    y as int,
                    px,
                    py,
                ) by {
                    lemma_text_box(s@, x as int, y as int, px, py);
                }
            }
            return ;
        }
        let len = s.unicode_len();
        let mut i: usize = 0;
        let mut clipped_right = false;
        while i < len && !clipped_right
            invariant
                self.wf(),
                0 <= y <= 43,
                i <= len,
                len == s@.len(),
                i > 0 ==> x as int + 8 * (i as int - 1) < 128,
                clipped_right ==> x as int + 8 * i as int >= 128,
                forall|px: int, py: int|
                    in_bounds(px, py) ==> pixel(self@, px, py) == (pixel(old(self)@, px, py)
                        || text_bit(s@.take(i as int), x as int, y as int, px, py)),
            decreases len - i + (if clipped_right { 0int } else { 1int }),
        {
            let gx: i64 = x as i64 + 8 * (i as i64);
            if gx >= 128 {
                clipped_right = true;
            } else {
                let c = s.get_char(i);
                if gx > -8 {
                    draw_char(self, c, gx as i32, y);
                } else {
                    proof {
                        assert forall|px: int, py: int| in_bounds(px, py) implies !char_bit(
                            c,
                            gx as int,
                            y as int,
                            px,
                            py,
                        ) by {}
                    }
                }
                proof {
                    assert forall|px: int, py: int| in_bounds(px, py) implies text_bit(
                        s@.take(i as int + 1),
                        x as int,
                        y as int,
                        px,
                        py,
                    ) == (text_bit(s@.take(i as int), x as int, y as int, px, py) || char_bit(
                        s@[i as int],
                        x as int + 8 * i as int,
                        y as int,
                        px,
                        py,
                    )) by {
                        lemma_text_bit_step(s@, x as int, y as int, px, py, i as int);
                    }
                }
                i += 1;
            }
        }
        proof {
            if i == len && !clipped_right {
                assert(s@.take(len as int) =~= s@);
            } else {
                assert forall|px: int, py: int| in_bounds(px, py) implies text_bit(
                    s@,
                    x as int,
                    y as int,
                    px,
                    py,
                ) == text_bit(s@.take(i as int), x as int, y as int, px, py) by {
                    lemma_text_bit_tail_clipped(s@, x as int, y as int, px, py, i as int);
                }
            }
        }
    }
}

} // verus!
