//! The fixed-dimension pixel buffer every video frame is encoded from, and
//! its conversion into the 4:2:0 plane layout the encoder consumes.

use vstd::prelude::*;
use vstd::arithmetic::div_mod::lemma_fundamental_div_mod_converse;
use crate::color::{rgb_to_yuv, yuv_chroma_u, yuv_chroma_v, yuv_luma};

verus! {

/// Width of every frame, in pixels.
pub const FRAME_WIDTH: usize = 1080;

/// Height of every frame, in pixels.
pub const FRAME_HEIGHT: usize = 1920;

/// A full-resolution frame: an interleaved RGB buffer of exactly
/// `FRAME_WIDTH x FRAME_HEIGHT` pixels, three bytes per pixel.
pub struct Frame {
    data: Vec<u8>,
}

impl Frame {
    /// The raw interleaved bytes of the frame.
    pub closed spec fn view(&self) -> Seq<u8> {
        self.data@
    }

    /// Well-formedness: the buffer holds exactly one RGB triple per pixel.
    pub open spec fn wf(&self) -> bool {
        self@.len() == 3 * FRAME_WIDTH * FRAME_HEIGHT
    }

    /// The RGB triple of the pixel at flat index `i` (row-major).
    pub open spec fn pix(&self, i: int) -> (u8, u8, u8) {
        (self@[3 * i], self@[3 * i + 1], self@[3 * i + 2])
    }

    /// A frame filled with one solid color.
    pub fn solid(r: u8, g: u8, b: u8) -> (f: Frame)
        ensures
            f.wf(),
            forall|i: int|
                0 <= i < FRAME_WIDTH * FRAME_HEIGHT ==> #[trigger] f.pix(i) == (r, g, b),
    {
        let total: usize = FRAME_WIDTH * FRAME_HEIGHT;
        let mut data: Vec<u8> = Vec::new();
        let mut i: usize = 0;
        while i < total
            invariant
                total == FRAME_WIDTH * FRAME_HEIGHT,
                i <= total,
                data@.len() == 3 * i,
                forall|j: int|
                    0 <= j < i ==> #[trigger] data@[3 * j] == r && data@[3 * j + 1] == g
                        && data@[3 * j + 2] == b,
            decreases total - i,
        {
            let ghost prev = data@;
            data.push(r);
            data.push(g);
            data.push(b);
            proof {
                assert forall|j: int|
                    0 <= j < i + 1 implies #[trigger] data@[3 * j] == r && data@[3 * j + 1] == g
                    && data@[3 * j + 2] == b by {
                    assert(data@ =~= prev + seq![r, g, b]);
                    if j < i {
                        assert(prev[3 * j] == r);
                        assert(prev[3 * j + 1] == g);
                        assert(prev[3 * j + 2] == b);
                    }
                }
            }
            i = i + 1;
        }
        let f = Frame { data };
        assert(forall|i: int|
            0 <= i < FRAME_WIDTH * FRAME_HEIGHT ==> #[trigger] f.pix(i) == (r, g, b));
        f
    }

    /// Overwrites one pixel of the frame.
    pub fn set_pixel(&mut self, x: usize, y: usize, r: u8, g: u8, b: u8)
        requires
            old(self).wf(),
            x < FRAME_WIDTH,
            y < FRAME_HEIGHT,
        ensures
            final(self).wf(),
            final(self).pix(y * FRAME_WIDTH + x) == (r, g, b),
            forall|i: int|
                0 <= i < FRAME_WIDTH * FRAME_HEIGHT && i != y * FRAME_WIDTH + x
                    ==> #[trigger] final(self).pix(i) == old(self).pix(i),
    {
        let base: usize = 3 * (y * FRAME_WIDTH + x);
        self.data.set(base, r);
        self.data.set(base + 1, g);
        self.data.set(base + 2, b);
    }

    /// The raw bytes, for an unverified renderer to read.
    pub fn bytes(&self) -> (d: &Vec<u8>)
        ensures
            d@ == self@,
    {
        &self.data
    }

    /// Consumes the frame, yielding its raw bytes.
    pub fn into_bytes(self) -> (d: Vec<u8>)
        ensures
            d@ == self@,
    {
        self.data
    }

    /// Rebuilds a frame from raw interleaved bytes; `None` unless the byte
    /// count is exactly that of a well formed frame.
    pub fn from_bytes(d: Vec<u8>) -> (r: Option<Frame>)
        ensures
            r is Some <==> d@.len() == 3 * FRAME_WIDTH * FRAME_HEIGHT,
            r matches Some(f) ==> f@ == d@ && f.wf(),
    {
        if d.len() == 3 * FRAME_WIDTH * FRAME_HEIGHT {
            Some(Frame { data: d })
        } else {
            None
        }
    }
}

/// The three planes of a frame laid out for 4:2:0 chroma-subsampled
/// encoding: a full-resolution luma plane and two quarter-resolution chroma
/// planes.
pub struct YuvPlanes {
    pub luma: Vec<u8>,
    pub chroma_u: Vec<u8>,
    pub chroma_v: Vec<u8>,
}

/// The pixel a chroma sample at plane index `j` is taken from: the
/// even-indexed top-left pixel of the `2 x 2` block, as a flat frame index.
pub open spec fn chroma_source(j: int) -> int {
    2 * (j / (FRAME_WIDTH as int / 2)) * FRAME_WIDTH + 2 * (j % (FRAME_WIDTH as int / 2))
}

impl YuvPlanes {
    /// Well-formedness with respect to the frame the planes came from: the
    /// luma plane holds one converted sample per pixel, and each chroma
    /// plane holds one sample per `2 x 2` block, computed at that block's
    /// even-indexed top-left pixel (single-sample subsampling, not an
    /// average).
    pub open spec fn wf_for(&self, f: Frame) -> bool {
        &&& self.luma@.len() == FRAME_WIDTH * FRAME_HEIGHT
        &&& self.chroma_u@.len() == (FRAME_WIDTH / 2) * (FRAME_HEIGHT / 2)
        &&& self.chroma_v@.len() == (FRAME_WIDTH / 2) * (FRAME_HEIGHT / 2)
        &&& forall|i: int|
            0 <= i < FRAME_WIDTH * FRAME_HEIGHT ==> #[trigger] self.luma@[i] == yuv_luma(
                f.pix(i).0,
                f.pix(i).1,
                f.pix(i).2,
            )
        &&& forall|j: int|
            0 <= j < (FRAME_WIDTH / 2) * (FRAME_HEIGHT / 2) ==> #[trigger] self.chroma_u@[j]
                == yuv_chroma_u(
                f.pix(chroma_source(j)).0,
                f.pix(chroma_source(j)).1,
                f.pix(chroma_source(j)).2,
            )
        &&& forall|j: int|
            0 <= j < (FRAME_WIDTH / 2) * (FRAME_HEIGHT / 2) ==> #[trigger] self.chroma_v@[j]
                == yuv_chroma_v(
                f.pix(chroma_source(j)).0,
                f.pix(chroma_source(j)).1,
                f.pix(chroma_source(j)).2,
            )
    }
}

/// Converts an RGB frame into the 4:2:0 plane layout in one pass: every
/// pixel's luma, and for each `2 x 2` block the chroma of its even-indexed
/// top-left pixel.
#[verifier::loop_isolation(false)]
pub fn yuv_planes(frame: &Frame) -> (p: YuvPlanes)
    requires
        frame.wf(),
    ensures
        p.wf_for(*frame),
{
    let mut luma: Vec<u8> = Vec::new();
    let mut chroma_u: Vec<u8> = Vec::new();
    let mut chroma_v: Vec<u8> = Vec::new();
    let mut row: usize = 0;
    while row < FRAME_HEIGHT
        invariant
            row <= FRAME_HEIGHT,
            luma@.len() == row * FRAME_WIDTH,
            chroma_u@.len() == ((row + 1) / 2) * 540,
            chroma_v@.len() == chroma_u@.len(),
            forall|i: int|
                0 <= i < luma@.len() ==> #[trigger] luma@[i] == yuv_luma(
                    frame.pix(i).0,
                    frame.pix(i).1,
                    frame.pix(i).2,
                ),
            forall|j: int|
                0 <= j < chroma_u@.len() ==> #[trigger] chroma_u@[j] == yuv_chroma_u(
                    frame.pix(chroma_source(j)).0,
                    frame.pix(chroma_source(j)).1,
                    frame.pix(chroma_source(j)).2,
                ),
            forall|j: int|
                0 <= j < chroma_v@.len() ==> #[trigger] chroma_v@[j] == yuv_chroma_v(
                    frame.pix(chroma_source(j)).0,
                    frame.pix(chroma_source(j)).1,
                    frame.pix(chroma_source(j)).2,
                ),
        decreases FRAME_HEIGHT - row,
    {
        let mut col: usize = 0;
        while col < FRAME_WIDTH
            invariant
                row < FRAME_HEIGHT,
                col <= FRAME_WIDTH,
                luma@.len() == row * FRAME_WIDTH + col,
                chroma_u@.len() == (if row % 2 == 0 {
                    (row / 2) * 540 + (col + 1) / 2
                } else {
                    ((row + 1) / 2) * 540
                }),
                chroma_v@.len() == chroma_u@.len(),
                forall|i: int|
                    0 <= i < luma@.len() ==> #[trigger] luma@[i] == yuv_luma(
                        frame.pix(i).0,
                        frame.pix(i).1,
                        frame.pix(i).2,
                    ),
                forall|j: int|
                    0 <= j < chroma_u@.len() ==> #[trigger] chroma_u@[j] == yuv_chroma_u(
                        frame.pix(chroma_source(j)).0,
                        frame.pix(chroma_source(j)).1,
                        frame.pix(chroma_source(j)).2,
                    ),
                forall|j: int|
                    0 <= j < chroma_v@.len() ==> #[trigger] chroma_v@[j] == yuv_chroma_v(
                        frame.pix(chroma_source(j)).0,
                        frame.pix(chroma_source(j)).1,
                        frame.pix(chroma_source(j)).2,
                    ),
            decreases FRAME_WIDTH - col,
        {
            let i: usize = row * FRAME_WIDTH + col;
            let base: usize = 3 * i;
            let r = frame.data[base];
            let g = frame.data[base + 1];
            let b = frame.data[base + 2];
            let (yy, uu, vv) = rgb_to_yuv(r, g, b);
            assert(frame.pix(i as int) == (r, g, b));
            luma.push(yy);
            if row % 2 == 0 && col % 2 == 0 {
                proof {
                    let j = chroma_u@.len() as int;
                    assert(j == (row / 2) * 540 + col / 2);
                    lemma_fundamental_div_mod_converse(j, 540, row as int / 2, col as int / 2);
                    assert(j / 540 == row as int / 2 && j % 540 == col as int / 2);
                    assert(chroma_source(j) == i);
                }
                chroma_u.push(uu);
                chroma_v.push(vv);
            }
            col = col + 1;
        }
        row = row + 1;
    }
    assert(chroma_u@.len() == ((FRAME_HEIGHT as int + 1) / 2) * 540);
    assert(FRAME_WIDTH == 1080 && FRAME_HEIGHT == 1920);
    assert((FRAME_HEIGHT as int + 1) / 2 == 960 && FRAME_WIDTH as int / 2 == 540
        && FRAME_HEIGHT as int / 2 == 960);
    assert(960 * 540 == 518400 && 540 * 960 == 518400);
    YuvPlanes { luma, chroma_u, chroma_v }
}

} // verus!
