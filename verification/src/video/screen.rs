use vstd::prelude::*;

use crate::util::{clone_boxed_slice, filled_boxed_slice};

verus! {

/// The screen's width in pixels.
pub const WIDTH: usize = 240;

/// The screen's height in pixels.
pub const HEIGHT: usize = 160;

/// Something that shows finished frames.
pub trait Screen {
    fn finished_frame(&mut self, frame: &FrameBuffer);
}

/// A 24-bit colour.
#[derive(Debug, Default, Copy, Clone, Eq, PartialEq, Structural)]
pub struct Rgb {
    pub r: u8,
    pub g: u8,
    pub b: u8,
}

impl Rgb {
    /// The colour of bytes red, green, blue.
    pub fn from_le_bytes(bytes: [u8; 3]) -> (r: Rgb)
        ensures
            r == (Rgb { r: bytes[0], g: bytes[1], b: bytes[2] }),
    {
        Rgb { r: bytes[0], g: bytes[1], b: bytes[2] }
    }

    /// The colour as bytes red, green, blue.
    pub fn to_le_bytes(self) -> (r: [u8; 3])
        ensures
            r@ == seq![self.r, self.g, self.b],
    {
        let r = [self.r, self.g, self.b];
        assert(r@ =~= seq![self.r, self.g, self.b]);
        r
    }

    /// The colour of the low three bytes of `rgb`, least significant first (red).
    pub fn from_u32(rgb: u32) -> (r: Rgb)
        ensures
            r == (Rgb {
                r: (rgb & 0xff) as u8,
                g: ((rgb >> 8u32) & 0xff) as u8,
                b: ((rgb >> 16u32) & 0xff) as u8,
            }),
    {
        Rgb::from_le_bytes(
            [(rgb & 0xff) as u8, ((rgb >> 8u32) & 0xff) as u8, ((rgb >> 16u32) & 0xff) as u8],
        )
    }
}

/// The index of the first byte of pixel (`x`, `y`) in a frame of 3-byte pixels.
pub open spec fn pixel_index(x: int, y: int) -> int {
    (y * WIDTH + x) * 3
}

/// The colour of pixel (`x`, `y`) in `bytes`.
pub open spec fn pixel_of(bytes: Seq<u8>, x: int, y: int) -> Rgb {
    let i = pixel_index(x, y);
    Rgb { r: bytes[i], g: bytes[i + 1], b: bytes[i + 2] }
}

/// `bytes` after pixel (`x`, `y`) is set to `rgb`; with `green_swap`, an odd pixel's green
/// then swaps places with its left neighbour's.
pub open spec fn pixel_set(bytes: Seq<u8>, x: int, y: int, rgb: Rgb, green_swap: bool) -> Seq<u8> {
    let i = pixel_index(x, y);
    let s = bytes.update(i, rgb.r).update(i + 1, rgb.g).update(i + 2, rgb.b);
    if green_swap && x % 2 == 1 {
        s.update(i + 1, s[i - 2]).update(i - 2, s[i + 1])
    } else {
        s
    }
}

/// A pixel reads back as it was set, and no other pixel changes; except that with green swap,
/// an odd pixel and its left neighbour exchange their greens.
pub proof fn lemma_set_pixel_read_back(bytes: Seq<u8>, x: int, y: int, rgb: Rgb, green_swap: bool)
    requires
        0 <= x < WIDTH,
        0 <= y,
        pixel_index(x, y) + 3 <= bytes.len(),
    ensures
        ({
            let after = pixel_set(bytes, x, y, rgb, green_swap);
            &&& after.len() == bytes.len()
            &&& !(green_swap && x % 2 == 1) ==> pixel_of(after, x, y) == rgb
            &&& green_swap && x % 2 == 1 ==> {
                &&& pixel_of(after, x, y) == (Rgb { g: pixel_of(bytes, x - 1, y).g, ..rgb })
                &&& pixel_of(after, x - 1, y) == (Rgb { g: rgb.g, ..pixel_of(bytes, x - 1, y) })
            }
            &&& forall|x2: int, y2: int|
                0 <= x2 < WIDTH && 0 <= y2 && pixel_index(x2, y2) + 3 <= bytes.len()
                    && !(x2 == x && y2 == y)
                    && !(green_swap && x % 2 == 1 && x2 == x - 1 && y2 == y)
                    ==> #[trigger] pixel_of(after, x2, y2) == pixel_of(bytes, x2, y2)
        }),
{
}

/// A frame of 3-byte RGB pixels, row by row.
pub struct FrameBuffer(pub Box<[u8]>);

impl Clone for FrameBuffer {
    fn clone(&self) -> (r: Self)
        ensures
            (*r.0)@ == (*self.0)@,
    {
        FrameBuffer(clone_boxed_slice(&self.0))
    }
}

impl FrameBuffer {
    /// A black frame.
    pub fn new() -> (r: FrameBuffer)
        ensures
            (*r.0)@ == Seq::new((WIDTH * HEIGHT * 3) as nat, |i: int| 0u8),
    {
        FrameBuffer(filled_boxed_slice(WIDTH * HEIGHT * 3, 0))
    }

    /// The colour of pixel (`x`, `y`).
    pub fn pixel(&self, x: usize, y: usize) -> (r: Rgb)
        requires
            pixel_index(x as int, y as int) + 3 <= (*self.0)@.len(),
        ensures
            r == pixel_of((*self.0)@, x as int, y as int),
    {
        let len = self.0.len();
        proof {
            assert(0 <= y * WIDTH + x) by (nonlinear_arith)
                requires
                    x >= 0,
                    y >= 0,
            ;
        }
        let i = Self::pixel_index(x, y);
        Rgb::from_le_bytes([self.0[i], self.0[i + 1], self.0[i + 2]])
    }

    /// Sets pixel (`x`, `y`). With `green_swap`, an odd pixel's green swaps places with its
    /// left neighbour's.
    pub fn set_pixel(&mut self, x: usize, y: usize, rgb: Rgb, green_swap: bool)
        requires
            pixel_index(x as int, y as int) + 3 <= (*old(self).0)@.len(),
        ensures
            (*final(self).0)@ == pixel_set((*old(self).0)@, x as int, y as int, rgb, green_swap),
    {
        let len = self.0.len();
        proof {
            assert(0 <= y * WIDTH + x) by (nonlinear_arith)
                requires
                    x >= 0,
                    y >= 0,
            ;
        }
        let i = Self::pixel_index(x, y);
        self.0[i] = rgb.r;
        self.0[i + 1] = rgb.g;
        self.0[i + 2] = rgb.b;
        if green_swap && x % 2 == 1 {
            proof {
                assert(i >= 3) by (nonlinear_arith)
                    requires
                        i == (y * WIDTH + x) * 3,
                        x >= 1,
                        y >= 0,
                ;
            }
            let t = self.0[i + 1];
            self.0[i + 1] = self.0[i - 2];
            self.0[i - 2] = t;
        }
    }

    fn pixel_index(x: usize, y: usize) -> (r: usize)
        requires
            pixel_index(x as int, y as int) <= usize::MAX,
            0 <= y * WIDTH + x,
        ensures
            r == pixel_index(x as int, y as int),
    {
        proof {
            assert(y * WIDTH <= y * WIDTH + x);
            assert(y * WIDTH + x <= (y * WIDTH + x) * 3) by (nonlinear_arith)
                requires
                    y * WIDTH + x >= 0,
            ;
        }
        (y * WIDTH + x) * 3
    }
}

impl Default for FrameBuffer {
    fn default() -> (r: Self)
        ensures
            (*r.0)@ == Seq::new((WIDTH * HEIGHT * 3) as nat, |i: int| 0u8),
    {
        Self::new()
    }
}

} // verus!
