//! Plain-value rasters: the pixel model shared by frames and composites.

use vstd::prelude::*;

verus! {

/// Mathematical model of a raster: a width, a height, and the RGBA bytes in
/// row-major order, four bytes per pixel.
#[verifier::ext_equal]
pub ghost struct RasterView {
    pub width: nat,
    pub height: nat,
    pub data: Seq<u8>,
}

impl RasterView {
    /// A raster is well formed when its buffer holds exactly four bytes for
    /// each of its `width * height` pixels.
    pub open spec fn wf(self) -> bool {
        self.data.len() == self.width * self.height * 4
    }

    /// Channel `c` (0 = R, 1 = G, 2 = B, 3 = A) of the pixel at column `x`,
    /// row `y`.
    pub open spec fn chan(self, x: int, y: int, c: int) -> u8 {
        self.data[(y * self.width + x) * 4 + c]
    }

    /// The RGB part of the pixel at `(x, y)`; the stitching logic never
    /// compares alpha.
    pub open spec fn rgb(self, x: int, y: int) -> (u8, u8, u8) {
        (self.chan(x, y, 0), self.chan(x, y, 1), self.chan(x, y, 2))
    }
}

/// The byte index of a channel of pixel `(x, y)` lies inside a well-formed
/// buffer.
pub proof fn lemma_pixel_index_bound(w: int, h: int, x: int, y: int)
    requires
        0 <= x < w,
        0 <= y < h,
    ensures
        0 <= (y * w + x) * 4 + 3 < w * h * 4,
        0 <= y * w + x < w * h,
{
    assert(0 <= (y * w + x) * 4 + 3 < w * h * 4 && 0 <= y * w + x < w * h)
        by (nonlinear_arith)
        requires
            0 <= x < w,
            0 <= y < h,
    ;
}

/// An RGBA8 raster held as plain values.
pub struct Raster {
    pub width: u32,
    pub height: u32,
    pub data: Vec<u8>,
}

impl View for Raster {
    type V = RasterView;

    open spec fn view(&self) -> RasterView {
        RasterView { width: self.width as nat, height: self.height as nat, data: self.data@ }
    }
}

impl Raster {
    pub open spec fn wf(self) -> bool {
        self@.wf()
    }

    /// Build a raster, checking that the buffer length matches the
    /// dimensions.
    pub fn new(width: u32, height: u32, data: Vec<u8>) -> (r: Option<Raster>)
        ensures
            r is Some <==> data@.len() == width * height * 4,
            r matches Some(t) ==> t@ == (RasterView {
                width: width as nat,
                height: height as nat,
                data: data@,
            }) && t.wf(),
    {
        proof {
            assert((width as int) * (height as int) <= 0xffff_ffff * 0xffff_ffff)
                by (nonlinear_arith)
                requires
                    width <= 0xffff_ffffu32,
                    height <= 0xffff_ffffu32,
            ;
        }
        let need: u128 = width as u128 * height as u128 * 4;
        if data.len() as u128 == need {
            Some(Raster { width, height, data })
        } else {
            None
        }
    }

    /// Read the R, G, B channels of pixel `(x, y)`.
    pub fn rgb_at(&self, x: u32, y: u32) -> (p: (u8, u8, u8))
        requires
            self.wf(),
            x < self@.width,
            y < self@.height,
        ensures
            p == self@.rgb(x as int, y as int),
    {
        let n: usize = self.data.len();
        proof {
            lemma_pixel_index_bound(
                self@.width as int,
                self@.height as int,
                x as int,
                y as int,
            );
            assert((y * self@.width + x) * 4 + 3 < n);
        }
        let base: usize = ((y as usize) * (self.width as usize) + (x as usize)) * 4;
        (self.data[base], self.data[base + 1], self.data[base + 2])
    }

    /// Read all four channels of pixel `(x, y)`.
    pub fn rgba_at(&self, x: u32, y: u32) -> (p: (u8, u8, u8, u8))
        requires
            self.wf(),
            x < self@.width,
            y < self@.height,
        ensures
            p.0 == self@.chan(x as int, y as int, 0),
            p.1 == self@.chan(x as int, y as int, 1),
            p.2 == self@.chan(x as int, y as int, 2),
            p.3 == self@.chan(x as int, y as int, 3),
    {
        let n: usize = self.data.len();
        proof {
            lemma_pixel_index_bound(
                self@.width as int,
                self@.height as int,
                x as int,
                y as int,
            );
            assert((y * self@.width + x) * 4 + 3 < n);
        }
        let base: usize = ((y as usize) * (self.width as usize) + (x as usize)) * 4;
        (self.data[base], self.data[base + 1], self.data[base + 2], self.data[base + 3])
    }

    /// An identical copy of the raster.
    pub fn duplicate(&self) -> (r: Raster)
        ensures
            r@ == self@,
    {
        let mut data: Vec<u8> = Vec::new();
        let n: usize = self.data.len();
        let mut i: usize = 0;
        while i < n
            invariant
                i <= n,
                n == self.data@.len(),
                data@ =~= self.data@.take(i as int),
            decreases n - i,
        {
            data.push(self.data[i]);
            i = i + 1;
        }
        proof {
            assert(data@ =~= self.data@);
        }
        Raster { width: self.width, height: self.height, data }
    }
}

/// One immutable snapshot of the captured region.
pub struct Frame {
    pub raster: Raster,
    /// When the frame was captured, in milliseconds; carried for
    /// bookkeeping and never read by the stitching logic.
    pub timestamp_ms: u64,
}

impl View for Frame {
    type V = RasterView;

    open spec fn view(&self) -> RasterView {
        self.raster@
    }
}

impl Frame {
    pub open spec fn wf(self) -> bool {
        self.raster.wf()
    }

    pub fn new(raster: Raster, timestamp_ms: u64) -> (f: Frame)
        ensures
            f@ == raster@,
            f.timestamp_ms == timestamp_ms,
    {
        Frame { raster, timestamp_ms }
    }
}

/// The accumulated stitched raster of a session, exclusively owned by the
/// worker that runs the capture loop.
pub struct CompositeImage {
    pub raster: Raster,
}

impl View for CompositeImage {
    type V = RasterView;

    open spec fn view(&self) -> RasterView {
        self.raster@
    }
}

impl CompositeImage {
    pub open spec fn wf(self) -> bool {
        self.raster.wf()
    }

    /// Absorb the first frame of a session: the composite starts as a copy
    /// of it, and its width stays fixed from then on.
    pub fn from_frame(f: &Frame) -> (c: CompositeImage)
        ensures
            c@ == f@,
    {
        CompositeImage { raster: f.raster.duplicate() }
    }

    pub fn width(&self) -> (w: u32)
        ensures
            w == self@.width,
    {
        self.raster.width
    }

    pub fn height(&self) -> (h: u32)
        ensures
            h == self@.height,
    {
        self.raster.height
    }
}

} // verus!
