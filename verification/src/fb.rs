//! Packed monochrome framebuffer for the 128x32 panel.
//!
//! Pixel (x, y) lives at byte `x + (y / 8) * 128`, bit `1 << (y % 8)`
//! (the SSD1306 horizontal-addressing page convention). Out-of-bounds
//! draws are clipped and never fault.

use vstd::prelude::*;

verus! {

/// Width of the panel in pixels.
pub const WIDTH: usize = 128;

/// Height of the panel in pixels.
pub const HEIGHT: usize = 32;

/// Number of bytes in a packed framebuffer: WIDTH * HEIGHT / 8.
pub const FB_LEN: usize = 512;

/// Whether (x, y) addresses a pixel of the panel.
pub open spec fn in_bounds(x: int, y: int) -> bool {
    0 <= x < 128 && 0 <= y < 32
}

/// Byte index of pixel (x, y) in the packed buffer.
pub open spec fn byte_index(x: int, y: int) -> int {
    x + (y / 8) * 128
}

/// The bit of pixel (x, y) inside its byte.
pub open spec fn bit_index(y: int) -> int {
    y % 8
}

/// Whether pixel (x, y) is lit in the packed buffer `fb`.
pub open spec fn pixel(fb: Seq<u8>, x: int, y: int) -> bool {
    (fb[byte_index(x, y)] >> (bit_index(y) as u8)) & 1 == 1
}

/// The all-zero frame.
pub open spec fn blank() -> Seq<u8> {
    Seq::new(512, |i: int| 0u8)
}

/// A blank frame has every pixel dark.
pub proof fn lemma_blank_dark(x: int, y: int)
    requires
        in_bounds(x, y),
    ensures
        !pixel(blank(), x, y),
{
    let j = bit_index(y) as u8;
    assert((0u8 >> j) & 1 == 0) by (bit_vector);
}

/// Two distinct in-bounds pixels either live in distinct bytes or in
/// distinct bits of the same byte.
proof fn lemma_addressing_injective(x1: int, y1: int, x2: int, y2: int)
    requires
        in_bounds(x1, y1),
        in_bounds(x2, y2),
        byte_index(x1, y1) == byte_index(x2, y2),
        bit_index(y1) == bit_index(y2),
    ensures
        x1 == x2 && y1 == y2,
{
    assert(y1 == (y1 / 8) * 8 + y1 % 8);
    assert(y2 == (y2 / 8) * 8 + y2 % 8);
}

/// Setting bit `i` of a byte flips exactly that bit to 1.
proof fn lemma_or_bit(b: u8, i: u8, j: u8)
    requires
        i < 8,
        j < 8,
    ensures
        i == j ==> ((b | (1u8 << i)) >> j) & 1 == 1,
        i != j ==> ((b | (1u8 << i)) >> j) & 1 == (b >> j) & 1,
{
    assert(i == j && i < 8 ==> ((b | (1u8 << i)) >> j) & 1 == 1) by (bit_vector);
    assert(i != j && i < 8 && j < 8 ==> ((b | (1u8 << i)) >> j) & 1 == (b >> j) & 1)
        by (bit_vector);
}

/// Clearing bit `i` of a byte flips exactly that bit to 0.
proof fn lemma_and_not_bit(b: u8, i: u8, j: u8)
    requires
        i < 8,
        j < 8,
    ensures
        i == j ==> ((b & !(1u8 << i)) >> j) & 1 == 0,
        i != j ==> ((b & !(1u8 << i)) >> j) & 1 == (b >> j) & 1,
{
    assert(i == j && i < 8 ==> ((b & !(1u8 << i)) >> j) & 1 == 0) by (bit_vector);
    assert(i != j && i < 8 && j < 8 ==> ((b & !(1u8 << i)) >> j) & 1 == (b >> j) & 1)
        by (bit_vector);
}

/// In-memory copy of the panel contents, one bit per pixel.
pub struct Framebuffer {
    bytes: Vec<u8>,
}

impl View for Framebuffer {
    type V = Seq<u8>;

    closed spec fn view(&self) -> Seq<u8> {
        self.bytes@
    }
}

impl Framebuffer {
    /// The buffer always holds exactly 512 bytes.
    pub open spec fn wf(&self) -> bool {
        self@.len() == 512
    }

    /// A fresh, fully dark frame.
    pub fn new() -> (r: Self)
        ensures
            r.wf(),
            r@ == blank(),
    {
        let bytes: Vec<u8> = vec![0u8; 512];
        proof {
            assert(bytes@ =~= blank());
        }
        Framebuffer { bytes }
    }

    /// Read one packed byte.
    pub fn byte_at(&self, i: usize) -> (b: u8)
        requires
            self.wf(),
            i < 512,
        ensures
            b == self@[i as int],
    {
        self.bytes[i]
    }

    /// Darken the whole frame.
    pub fn clear(&mut self)
        ensures
            final(self).wf(),
            final(self)@ == blank(),
    {
        self.bytes = vec![0u8; 512];
        proof {
            assert(self.bytes@ =~= blank());
        }
    }

    /// Set (`on == true`) or clear one pixel; coordinates off the panel
    /// are clipped silently.
    pub fn set_pixel(&mut self, x: i32, y: i32, on: bool)
        requires
            old(self).wf(),
        ensures
            final(self).wf(),
            !in_bounds(x as int, y as int) ==> final(self)@ == old(self)@,
            in_bounds(x as int, y as int) ==> {
                &&& forall|i: int|
                    0 <= i < 512 && i != byte_index(x as int, y as int) ==> final(self)@[i]
                        == old(self)@[i]
                &&& forall|x2: int, y2: int|
                    in_bounds(x2, y2) ==> pixel(final(self)@, x2, y2) == (if x2 == x as int && y2
                        == y as int {
                        on
                    } else {
                        pixel(old(self)@, x2, y2)
                    })
            },
    {
        if 0 <= x && x < 128 && 0 <= y && y < 32 {
            let xi = x as usize;
            let yi = y as usize;
            let idx: usize = xi + (yi / 8) * 128;
            let mask: u8 = 1u8 << ((yi % 8) as u8);
            let b = self.bytes[idx];
            let nb: u8 = if on {
                b | mask
            } else {
                b & !mask
            };
            self.bytes[idx] = nb;
            proof {
                let xx = x as int;
                let yy = y as int;
                let bi = byte_index(xx, yy);
                assert(final(self)@ == old(self)@.update(bi, nb));
                assert forall|x2: int, y2: int| in_bounds(x2, y2) implies pixel(
                    final(self)@,
                    x2,
                    y2,
                ) == (if x2 == xx && y2 == yy {
                    on
                } else {
                    pixel(old(self)@, x2, y2)
                }) by {
                    let j = bit_index(y2) as u8;
                    let i = bit_index(yy) as u8;
                    if byte_index(x2, y2) == bi {
                        if on {
                            lemma_or_bit(b, i, j);
                        } else {
                            lemma_and_not_bit(b, i, j);
                        }
                        if i == j {
                            lemma_addressing_injective(x2, y2, xx, yy);
                        }
                    }
                }
            }
        }
    }
}

} // verus!
