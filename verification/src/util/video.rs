use vstd::prelude::*;

use crate::util::{clone_boxed_slice, filled_boxed_slice};
use crate::video::{Callback, Dot, HBLANK_DOT, VBLANK_DOT};

verus! {

/// The number of dots on the screen.
pub const SCREEN_DOTS: usize = 240 * 160;

/// The first byte of dot (`x`, `y`) in a frame of `stride`-byte dots.
pub open spec fn dot_index(stride: int, x: int, y: int) -> int {
    stride * (y * HBLANK_DOT + x)
}

/// `frame` with the green byte of each even dot swapped with that of the dot after it.
pub open spec fn green_swapped(frame: Seq<u8>, stride: int) -> Seq<u8> {
    Seq::new(
        frame.len(),
        |j: int|
            if j >= 1 && (j - 1) % (2 * stride) == 0 {
                frame[j + stride]
            } else if j >= stride + 1 && (j - stride - 1) % (2 * stride) == 0 {
                frame[j - stride]
            } else {
                frame[j]
            },
    )
}

/// An RGB frame with `STRIDE` bytes per dot (the first three hold red, green and blue, scaled
/// from 5 to 8 bits).
pub struct FrameBuffer<const STRIDE: usize>(pub Box<[u8]>);

impl<const STRIDE: usize> Clone for FrameBuffer<STRIDE> {
    fn clone(&self) -> (r: Self)
        ensures
            (*r.0)@ == (*self.0)@,
    {
        FrameBuffer(clone_boxed_slice(&self.0))
    }
}

impl<const STRIDE: usize> FrameBuffer<STRIDE> {
    /// A frame with every byte `fill`. The stride must leave room for the three colours.
    pub fn new(fill: u8) -> (r: FrameBuffer<STRIDE>)
        requires
            STRIDE >= 3,
            STRIDE * SCREEN_DOTS <= usize::MAX,
        ensures
            (*r.0)@ == Seq::new((STRIDE * SCREEN_DOTS) as nat, |i: int| fill),
    {
        FrameBuffer(filled_boxed_slice(STRIDE * SCREEN_DOTS, fill))
    }

    /// Puts `dot` at (`x`, `y`).
    pub fn put_dot(&mut self, x: u8, y: u8, dot: Dot)
        requires
            dot.wf(),
            dot_index(STRIDE as int, x as int, y as int) + 2 < (*old(self).0)@.len(),
        ensures
            ({
                let i = dot_index(STRIDE as int, x as int, y as int);
                (*final(self).0)@ == (*old(self).0)@.update(i, (dot@.0 * 8) as u8).update(
                    i + 1,
                    (dot@.1 * 8) as u8,
                ).update(i + 2, (dot@.2 * 8) as u8)
            }),
    {
        let len = self.0.len();
        let i = STRIDE * (y as usize * HBLANK_DOT as usize + x as usize);
        self.0[i] = dot.red() * 8;
        self.0[i + 1] = dot.green() * 8;
        self.0[i + 2] = dot.blue() * 8;
    }

    /// Swaps the green byte of each even dot with that of the dot after it, pair by pair from
    /// the start; the frame must end where a pair's swap stays inside it.
    pub fn green_swap(&mut self)
        requires
            STRIDE >= 1,
            2 * STRIDE <= usize::MAX,
            green_swap_fits((*old(self).0)@.len() as int, STRIDE as int),
        ensures
            (*final(self).0)@ == green_swapped((*old(self).0)@, STRIDE as int),
    {
        let len = self.0.len();
        let ghost s0 = (*self.0)@;
        let step = 2 * STRIDE;
        let mut i: usize = 0;
        while i < len
            invariant
                STRIDE >= 1,
                step == 2 * STRIDE,
                green_swap_fits(len as int, STRIDE as int),
                len == s0.len(),
                i as int % (step as int) == 0 || i == len,
                i <= len,
                (*self.0)@.len() == len,
                forall|j: int|
                    0 <= j < i ==> #[trigger] (*self.0)@[j] == green_swapped(s0, STRIDE as int)[j],
                forall|j: int| i <= j < len ==> #[trigger] (*self.0)@[j] == s0[j],
            decreases len - i,
        {
            proof {
                lemma_pair_fits(i as int, len as int, STRIDE as int);
            }
            let t = self.0[i + 1];
            self.0[i + 1] = self.0[i + STRIDE + 1];
            self.0[i + STRIDE + 1] = t;
            let next = if len - i > step {
                i + step
            } else {
                len
            };
            assert forall|j: int| i <= j < next implies #[trigger] (*self.0)@[j]
                == green_swapped(s0, STRIDE as int)[j] by {
                lemma_pair_positions(i as int, j, STRIDE as int);
            }
            proof {
                if next < len {
                    assert((i + step) as int % (step as int) == 0) by (nonlinear_arith)
                        requires
                            i as int % (step as int) == 0,
                            step > 0,
                    ;
                }
            }
            i = next;
        }
        assert((*self.0)@ =~= green_swapped(s0, STRIDE as int));
    }
}

/// A frame of `len` bytes ends where the green swap of `stride`-byte dots stays inside it:
/// it is empty, or its last pair of dots is whole or reaches past the second dot's green.
pub open spec fn green_swap_fits(len: int, stride: int) -> bool {
    len == 0 || (stride >= 2 && (len % (2 * stride) == 0 || len % (2 * stride) >= stride + 2))
}

/// Every pair of dots that the swap reaches has both greens inside the frame.
proof fn lemma_pair_fits(i: int, len: int, s: int)
    requires
        s >= 1,
        green_swap_fits(len, s),
        i % (2 * s) == 0,
        0 <= i < len,
    ensures
        s >= 2,
        i + s + 1 < len,
{
    let r = len % (2 * s);
    assert(s >= 2);
    assert(len == (len / (2 * s)) * (2 * s) + r && 0 <= r < 2 * s) by (nonlinear_arith)
        requires
            s >= 2,
            r == len % (2 * s),
    ;
    assert(i == (i / (2 * s)) * (2 * s)) by (nonlinear_arith)
        requires
            s >= 2,
            i % (2 * s) == 0,
    ;
    let q = len / (2 * s);
    let k = i / (2 * s);
    assert(k < q || (k == q && r > 0)) by (nonlinear_arith)
        requires
            s >= 2,
            i == k * (2 * s),
            len == q * (2 * s) + r,
            0 <= r < 2 * s,
            i < len,
    ;
    if k < q {
        assert(i + 2 * s <= len) by (nonlinear_arith)
            requires
                s >= 2,
                i == k * (2 * s),
                len == q * (2 * s) + r,
                r >= 0,
                k < q,
        ;
    } else {
        assert(i + r == len);
    }
}

/// Within the pair of dots that starts at `i`, only the two greens are exchanged.
proof fn lemma_pair_positions(i: int, j: int, s: int)
    requires
        s >= 2,
        i % (2 * s) == 0,
        i >= 0,
        i <= j < i + 2 * s,
    ensures
        (j >= 1 && (j - 1) % (2 * s) == 0) <==> j == i + 1,
        (j >= s + 1 && (j - s - 1) % (2 * s) == 0) <==> j == i + s + 1,
{
    assert((j - 1) % (2 * s) == 0 && j >= 1 <==> j == i + 1) by (nonlinear_arith)
        requires
            i % (2 * s) == 0,
            i >= 0,
            i <= j < i + 2 * s,
            s >= 2,
    ;
    assert((j - s - 1) % (2 * s) == 0 && j >= s + 1 <==> j == i + s + 1) by (nonlinear_arith)
        requires
            i % (2 * s) == 0,
            i >= 0,
            i <= j < i + 2 * s,
            s >= 2,
    ;
}

/// Swapping the greens twice gives back the frame.
pub proof fn lemma_green_swap_twice(frame: Seq<u8>, stride: int)
    requires
        stride >= 1,
        green_swap_fits(frame.len() as int, stride),
    ensures
        green_swapped(green_swapped(frame, stride), stride) == frame,
{
    let g = green_swapped(frame, stride);
    let s = stride;
    assert forall|j: int| 0 <= j < frame.len() implies #[trigger] green_swapped(g, s)[j]
        == frame[j] by {
        let i = j - (j % (2 * s));
        assert(i % (2 * s) == 0 && 0 <= i <= j < i + 2 * s) by (nonlinear_arith)
            requires
                s >= 1,
                j >= 0,
                i == j - (j % (2 * s)),
        ;
        lemma_pair_fits(i, frame.len() as int, s);
        lemma_pair_positions(i, j, s);
        if j == i + 1 {
            lemma_pair_positions(i, j + s, s);
        } else if j == i + s + 1 {
            lemma_pair_positions(i, j - s, s);
        }
    }
    assert(green_swapped(g, s) =~= frame);
}

/// A video callback that discards every frame.
pub struct NullCallback;

impl Callback for NullCallback {
    open spec fn frame_skipping(&self) -> bool {
        false
    }

    open spec fn dot_taken(before: Self, after: Self, x: u8, y: u8, colour: (u8, u8, u8)) -> bool {
        true
    }

    open spec fn frame_ended(before: Self, after: Self, green_swap: bool) -> bool {
        true
    }

    fn put_dot(&mut self, x: u8, y: u8, dot: Dot) {
    }

    fn end_frame(&mut self, green_swap: bool) {
    }

    fn is_frame_skipping(&self) -> (r: bool) {
        false
    }
}

} // verus!
