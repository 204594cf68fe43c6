//! Incremental compositing: append the non-duplicated remainder of a new
//! frame beneath the accumulated composite.
//!
//! The convention agreed with the detector: `offset` counts the leading
//! frame rows already present in the composite, so rows
//! `offset..frame.height` are copied.  An `offset` at or beyond the frame
//! height is a no-op append, never an error.

use vstd::prelude::*;
use vstd::arithmetic::div_mod::lemma_fundamental_div_mod_converse;
use crate::detect::OverlapResult;
use crate::raster::{lemma_pixel_index_bound, CompositeImage, Frame, Raster, RasterView};

verus! {

/// Width of the composite after an append: the wider of the two rasters.
pub open spec fn out_width(b: RasterView, f: RasterView) -> int {
    if b.width >= f.width {
        b.width as int
    } else {
        f.width as int
    }
}

/// Height of the composite after a real append.
pub open spec fn out_height(b: RasterView, f: RasterView, offset: int) -> int {
    b.height + (f.height - offset)
}

/// The channel value at `(x, y)` of the appended composite: the base
/// sits on top, the copied frame rows follow, and columns beyond a
/// source's own width are transparent.
pub open spec fn append_chan(
    b: RasterView,
    f: RasterView,
    offset: int,
    x: int,
    y: int,
    c: int,
) -> u8 {
    if y < b.height {
        if x < b.width {
            b.chan(x, y, c)
        } else {
            0u8
        }
    } else {
        if x < f.width {
            f.chan(x, offset + (y - b.height), c)
        } else {
            0u8
        }
    }
}

/// The raster that appending must produce.  An offset at or beyond the
/// frame height returns the base unchanged.
pub open spec fn append_spec(b: RasterView, f: RasterView, offset: int) -> RasterView {
    if offset >= f.height {
        b
    } else {
        let w = out_width(b, f);
        let h = out_height(b, f, offset);
        RasterView {
            width: w as nat,
            height: h as nat,
            data: Seq::new(
                (w * h * 4) as nat,
                |k: int| append_chan(b, f, offset, (k / 4) % w, (k / 4) / w, k % 4),
            ),
        }
    }
}

/// Reading a channel of the appended raster gives the channel rule.
pub proof fn lemma_append_spec_chan(b: RasterView, f: RasterView, offset: int, x: int, y: int, c: int)
    requires
        0 <= offset < f.height,
        0 <= x < out_width(b, f),
        0 <= y < out_height(b, f, offset),
        0 <= c < 4,
    ensures
        append_spec(b, f, offset).chan(x, y, c) == append_chan(b, f, offset, x, y, c),
{
    let w = out_width(b, f);
    let h = out_height(b, f, offset);
    lemma_pixel_index_bound(w, h, x, y);
    let p = y * w + x;
    let k = p * 4 + c;
    lemma_fundamental_div_mod_converse(k, 4, p, c);
    lemma_fundamental_div_mod_converse(p, w, y, x);
}

/// The appended raster is well formed, and its height grows by exactly
/// the copied rows on a real append and not at all on a no-op append.
pub proof fn lemma_append_height(b: RasterView, f: RasterView, offset: int)
    requires
        0 <= offset,
        b.wf(),
        f.wf(),
    ensures
        append_spec(b, f, offset).wf(),
        offset >= f.height ==> append_spec(b, f, offset) == b,
        offset < f.height ==> append_spec(b, f, offset).height == b.height + (f.height - offset)
            && append_spec(b, f, offset).height > b.height,
        append_spec(b, f, offset).height >= b.height,
{
    if offset < f.height {
        let w = out_width(b, f);
        let h = out_height(b, f, offset);
        assert(w * h * 4 == (w as nat) * (h as nat) * 4) by (nonlinear_arith)
            requires
                w >= 0,
                h > 0,
        ;
    }
}

/// Append the rows `overlap.offset..frame.height` of `frame` beneath
/// `base`.  The result is as wide as the wider of the two; columns a
/// source does not cover are transparent.  An offset at or beyond the
/// frame height returns the base unchanged, pixel for pixel.
pub fn append_image(base: &CompositeImage, frame: &Frame, overlap: &OverlapResult) -> (r:
    CompositeImage)
    requires
        base.wf(),
        frame.wf(),
        base@.height + frame@.height <= u32::MAX,
    ensures
        r.wf(),
        r@ == append_spec(base@, frame@, overlap.offset as int),
        overlap.offset >= frame@.height ==> r@ == base@,
{
    let bw: u32 = base.raster.width;
    let bh: u32 = base.raster.height;
    let fw: u32 = frame.raster.width;
    let fh: u32 = frame.raster.height;
    let off: u32 = overlap.offset;
    if off >= fh {
        return CompositeImage { raster: base.raster.duplicate() };
    }
    let w: u32 = if bw >= fw {
        bw
    } else {
        fw
    };
    let h: u32 = bh + (fh - off);
    let ghost sd: Seq<u8> = append_spec(base@, frame@, off as int).data;
    let mut data: Vec<u8> = Vec::new();
    let mut y: u32 = 0;
    while y < h
        invariant
            y <= h,
            base.wf(),
            frame.wf(),
            bw == base@.width,
            bh == base@.height,
            fw == frame@.width,
            fh == frame@.height,
            off < fh,
            w == out_width(base@, frame@),
            h == out_height(base@, frame@, off as int),
            sd == append_spec(base@, frame@, off as int).data,
            data@.len() == (y as int) * (w as int) * 4,
            forall|k: int| 0 <= k < data@.len() ==> data@[k] == sd[k],
        decreases h - y,
    {
        let mut x: u32 = 0;
        while x < w
            invariant
                x <= w,
                y < h,
                base.wf(),
                frame.wf(),
                bw == base@.width,
                bh == base@.height,
                fw == frame@.width,
                fh == frame@.height,
                off < fh,
                w == out_width(base@, frame@),
                h == out_height(base@, frame@, off as int),
                sd == append_spec(base@, frame@, off as int).data,
                data@.len() == (y as int) * (w as int) * 4 + (x as int) * 4,
                forall|k: int| 0 <= k < data@.len() ==> data@[k] == sd[k],
            decreases w - x,
        {
            proof {
                lemma_pixel_index_bound(w as int, h as int, x as int, y as int);
            }
            let px: (u8, u8, u8, u8) = if y < bh {
                if x < bw {
                    base.raster.rgba_at(x, y)
                } else {
                    (0u8, 0u8, 0u8, 0u8)
                }
            } else {
                if x < fw {
                    frame.raster.rgba_at(x, off + (y - bh))
                } else {
                    (0u8, 0u8, 0u8, 0u8)
                }
            };
            proof {
                assert(px.0 == append_chan(base@, frame@, off as int, x as int, y as int, 0));
                assert(px.1 == append_chan(base@, frame@, off as int, x as int, y as int, 1));
                assert(px.2 == append_chan(base@, frame@, off as int, x as int, y as int, 2));
                assert(px.3 == append_chan(base@, frame@, off as int, x as int, y as int, 3));
                lemma_append_spec_chan(base@, frame@, off as int, x as int, y as int, 0);
                lemma_append_spec_chan(base@, frame@, off as int, x as int, y as int, 1);
                lemma_append_spec_chan(base@, frame@, off as int, x as int, y as int, 2);
                lemma_append_spec_chan(base@, frame@, off as int, x as int, y as int, 3);
            }
            data.push(px.0);
            data.push(px.1);
            data.push(px.2);
            data.push(px.3);
            x = x + 1;
        }
        proof {
            assert((y as int) * (w as int) * 4 + (w as int) * 4 == (y as int + 1) * (w as int) * 4)
                by (nonlinear_arith);
        }
        y = y + 1;
    }
    proof {
        lemma_append_height(base@, frame@, off as int);
        assert((h as int) * (w as int) * 4 == (w as int) * (h as int) * 4) by (nonlinear_arith);
        assert(data@ =~= sd);
    }
    let r = CompositeImage { raster: Raster { width: w, height: h, data } };
    proof {
        assert(r@ =~= append_spec(base@, frame@, off as int));
    }
    r
}

} // verus!
