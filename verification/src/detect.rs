//! Overlap detection: how many leading rows of a new frame duplicate
//! content already present at the bottom of the accumulated composite.
//!
//! Convention fixed here and relied on by the compositor: a `Matched`
//! result carries `offset` = the count of leading candidate rows that are
//! already present in the reference, so the rows `offset..height` of the
//! candidate are the new content.

use vstd::prelude::*;
use vstd::arithmetic::div_mod::lemma_mod_multiples_vanish;
use crate::raster::{CompositeImage, Frame, Raster, RasterView};

verus! {

/// Two RGB channel values are close when their absolute difference is
/// at most `tolerance`.
pub open spec fn channel_close(a: u8, b: u8, tolerance: u8) -> bool {
    -(tolerance as int) <= a - b <= tolerance as int
}

/// Two pixels are similar when every one of the three colour channels is
/// within `tolerance`; the alpha channel is ignored throughout.
pub open spec fn rgb_similar(p1: (u8, u8, u8), p2: (u8, u8, u8), tolerance: u8) -> bool {
    &&& channel_close(p1.0, p2.0, tolerance)
    &&& channel_close(p1.1, p2.1, tolerance)
    &&& channel_close(p1.2, p2.2, tolerance)
}

/// Decide pixel similarity: each of R, G, B must differ by at most
/// `tolerance`; alpha plays no part.
pub fn pixels_are_similar(p1: (u8, u8, u8), p2: (u8, u8, u8), tolerance: u8) -> (r: bool)
    ensures
        r == rgb_similar(p1, p2, tolerance),
{
    let dr: u8 = if p1.0 >= p2.0 { p1.0 - p2.0 } else { p2.0 - p1.0 };
    let dg: u8 = if p1.1 >= p2.1 { p1.1 - p2.1 } else { p2.1 - p1.1 };
    let db: u8 = if p1.2 >= p2.2 { p1.2 - p2.2 } else { p2.2 - p1.2 };
    dr <= tolerance && dg <= tolerance && db <= tolerance
}

/// Boundary of the similarity judgement: channel differences of exactly the
/// tolerance are still similar, and any single channel one unit beyond the
/// tolerance makes the pixels dissimilar.
pub proof fn lemma_tolerance_boundary(p1: (u8, u8, u8), p2: (u8, u8, u8), tolerance: u8)
    ensures
        channel_close(p1.0, p2.0, tolerance) && channel_close(p1.1, p2.1, tolerance)
            && channel_close(p1.2, p2.2, tolerance) ==> rgb_similar(p1, p2, tolerance),
        p1.0 - p2.0 == tolerance + 1 || p2.0 - p1.0 == tolerance + 1 ==> !rgb_similar(
            p1,
            p2,
            tolerance,
        ),
        p1.1 - p2.1 == tolerance + 1 || p2.1 - p1.1 == tolerance + 1 ==> !rgb_similar(
            p1,
            p2,
            tolerance,
        ),
        p1.2 - p2.2 == tolerance + 1 || p2.2 - p1.2 == tolerance + 1 ==> !rgb_similar(
            p1,
            p2,
            tolerance,
        ),
{
}

/// Tuning of the detector.
#[derive(Clone, Copy)]
pub struct DetectorConfig {
    /// Rows taken from the bottom of the reference as the signature block.
    pub signature_height: u32,
    /// Column step of the sparse sampled pre-check.
    pub column_stride: u32,
    /// Per-channel absolute-difference tolerance.
    pub tolerance: u8,
    /// Strict verification lets up to this fraction, in thousandths, of the
    /// signature pixels exceed the tolerance (anti-aliasing noise).
    pub mismatch_per_mille: u32,
}

impl DetectorConfig {
    pub open spec fn wf(self) -> bool {
        &&& self.signature_height >= 1
        &&& self.column_stride >= 1
        &&& self.mismatch_per_mille <= 1000
    }

    /// The tuning used by the capture loop when the caller does not pick
    /// its own.
    pub fn recommended() -> (c: DetectorConfig)
        ensures
            c == (DetectorConfig {
                signature_height: 5u32,
                column_stride: 5u32,
                tolerance: 15u8,
                mismatch_per_mille: 10u32,
            }),
            c.wf(),
    {
        DetectorConfig {
            signature_height: 5,
            column_stride: 5,
            tolerance: 15,
            mismatch_per_mille: 10,
        }
    }
}

/// What a detector run concluded.
#[derive(Clone, Copy, PartialEq, Eq, Structural, Debug)]
pub enum OverlapKind {
    /// The signature was found: `offset` leading candidate rows duplicate
    /// the reference.
    Matched,
    /// No plausible match was found (scrolled too far, or noise).
    NoOverlap,
    /// The candidate duplicates the reference tail entirely: no scrolling
    /// happened.
    FullDuplicate,
}

/// Outcome of overlap detection; `offset` counts the leading rows of the
/// candidate that are already present in the reference.
#[derive(Clone, Copy, PartialEq, Eq, Structural, Debug)]
pub struct OverlapResult {
    pub offset: u32,
    pub kind: OverlapKind,
}

/// The signature height actually used: the configured row count, clamped
/// to the reference height.
pub open spec fn sig_rows(r: RasterView, cfg: DetectorConfig) -> int {
    if cfg.signature_height <= r.height {
        cfg.signature_height as int
    } else {
        r.height as int
    }
}

/// Width over which pixels are compared: frames are left-aligned, so only
/// the columns the two rasters share take part.
pub open spec fn cmp_width(r: RasterView, f: RasterView) -> int {
    if r.width <= f.width {
        r.width as int
    } else {
        f.width as int
    }
}

/// How far down the candidate the search goes: scrolling beyond half a
/// region per tick is treated as unrecoverable and is not searched for.
pub open spec fn search_depth(r: RasterView, f: RasterView) -> int {
    (if r.height <= f.height {
        r.height as int
    } else {
        f.height as int
    }) / 2
}

/// Inputs on which no search is attempted: zero-area images, a shared
/// width narrower than the sampling stride, or a candidate shorter than
/// the signature block.
pub open spec fn degenerate(r: RasterView, f: RasterView, cfg: DetectorConfig) -> bool {
    ||| r.width == 0
    ||| r.height == 0
    ||| f.width == 0
    ||| f.height == 0
    ||| cmp_width(r, f) < cfg.column_stride
    ||| f.height < sig_rows(r, cfg)
}

/// Every sampled pixel of the block is similar: rows `0 <= i < rows` of
/// the reference starting at `ry` against the candidate starting at `fy`,
/// at columns below `w` that are multiples of `stride`.
pub open spec fn block_sampled_similar(
    r: RasterView,
    ry: int,
    f: RasterView,
    fy: int,
    w: int,
    rows: int,
    stride: int,
    tolerance: u8,
) -> bool {
    forall|i: int, x: int|
        0 <= i < rows && 0 <= x < w && x % stride == 0 ==> rgb_similar(
            #[trigger] r.rgb(x, ry + i),
            #[trigger] f.rgb(x, fy + i),
            tolerance,
        )
}

/// Number of dissimilar pixels among columns `0 <= x < upto` of one row
/// pair.
pub open spec fn row_mismatches(
    r: RasterView,
    ry: int,
    f: RasterView,
    fy: int,
    tolerance: u8,
    upto: int,
) -> nat
    decreases upto,
{
    if upto <= 0 {
        0
    } else {
        row_mismatches(r, ry, f, fy, tolerance, upto - 1) + if rgb_similar(
            r.rgb(upto - 1, ry),
            f.rgb(upto - 1, fy),
            tolerance,
        ) {
            0nat
        } else {
            1nat
        }
    }
}

/// Number of dissimilar pixels in the first `rows_upto` row pairs of the
/// block, each row over width `w`.
pub open spec fn block_mismatches(
    r: RasterView,
    ry: int,
    f: RasterView,
    fy: int,
    w: int,
    tolerance: u8,
    rows_upto: int,
) -> nat
    decreases rows_upto,
{
    if rows_upto <= 0 {
        0
    } else {
        block_mismatches(r, ry, f, fy, w, tolerance, rows_upto - 1) + row_mismatches(
            r,
            ry + rows_upto - 1,
            f,
            fy + rows_upto - 1,
            tolerance,
            w,
        )
    }
}

/// Strict verification: the dissimilar pixels of the whole signature block
/// stay within the configured fraction (in thousandths).
pub open spec fn strict_pass(
    r: RasterView,
    ry: int,
    f: RasterView,
    fy: int,
    w: int,
    rows: int,
    cfg: DetectorConfig,
) -> bool {
    block_mismatches(r, ry, f, fy, w, cfg.tolerance, rows) * 1000 <= w * rows
        * cfg.mismatch_per_mille
}

/// Two multiples of `m` lie at least `m` apart.
proof fn lemma_multiple_gap(a: int, b: int, m: int)
    requires
        0 < m,
        a % m == 0,
        b % m == 0,
        a < b,
    ensures
        a + m <= b,
{
    vstd::arithmetic::div_mod::lemma_fundamental_div_mod(a, m);
    vstd::arithmetic::div_mod::lemma_fundamental_div_mod(b, m);
    let qa = a / m;
    let qb = b / m;
    assert(qa < qb) by (nonlinear_arith)
        requires
            m > 0,
            m * qa < m * qb,
    ;
    assert(m * (qa + 1) <= m * qb) by (nonlinear_arith)
        requires
            qa < qb,
            m > 0,
    ;
    assert(m * (qa + 1) == m * qa + m) by (nonlinear_arith);
}

/// Walk the sampled columns of the block and reject on the first
/// dissimilar pixel.
fn block_sampled_similar_at(
    rr: &Raster,
    ry: u32,
    fr: &Raster,
    fy: u32,
    w: u32,
    rows: u32,
    stride: u32,
    tolerance: u8,
) -> (b: bool)
    requires
        rr.wf(),
        fr.wf(),
        stride >= 1,
        ry + rows <= rr@.height,
        fy + rows <= fr@.height,
        w <= rr@.width,
        w <= fr@.width,
    ensures
        b == block_sampled_similar(
            rr@,
            ry as int,
            fr@,
            fy as int,
            w as int,
            rows as int,
            stride as int,
            tolerance,
        ),
{
    let mut i: u32 = 0;
    while i < rows
        invariant
            i <= rows,
            rr.wf(),
            fr.wf(),
            stride >= 1,
            ry + rows <= rr@.height,
            fy + rows <= fr@.height,
            w <= rr@.width,
            w <= fr@.width,
            forall|i2: int, x2: int|
                0 <= i2 < i && 0 <= x2 < w && x2 % (stride as int) == 0 ==> rgb_similar(
                    #[trigger] rr@.rgb(x2, ry + i2),
                    #[trigger] fr@.rgb(x2, fy + i2),
                    tolerance,
                ),
        decreases rows - i,
    {
        let mut x: u64 = 0;
        while x < w as u64
            invariant
                i < rows,
                rr.wf(),
                fr.wf(),
                stride >= 1,
                ry + rows <= rr@.height,
                fy + rows <= fr@.height,
                w <= rr@.width,
                w <= fr@.width,
                (x as int) % (stride as int) == 0,
                forall|x2: int|
                    0 <= x2 < x && x2 < w && x2 % (stride as int) == 0 ==> rgb_similar(
                        #[trigger] rr@.rgb(x2, ry + i),
                        #[trigger] fr@.rgb(x2, fy + i),
                        tolerance,
                    ),
            decreases (if x as int <= w as int {
                w as int - x as int
            } else {
                0int
            }),
        {
            let xi: u32 = x as u32;
            let p1 = rr.rgb_at(xi, ry + i);
            let p2 = fr.rgb_at(xi, fy + i);
            if !pixels_are_similar(p1, p2, tolerance) {
                proof {
                    assert(!rgb_similar(
                        rr@.rgb(xi as int, ry + i),
                        fr@.rgb(xi as int, fy + i),
                        tolerance,
                    ));
                }
                return false;
            }
            proof {
                lemma_mod_multiples_vanish(1, x as int, stride as int);
                assert forall|x2: int|
                    0 <= x2 < x + stride && x2 < w && x2 % (stride as int) == 0 implies rgb_similar(
                    #[trigger] rr@.rgb(x2, ry + i),
                    #[trigger] fr@.rgb(x2, fy + i),
                    tolerance,
                ) by {
                    if x2 > x {
                        lemma_multiple_gap(x as int, x2, stride as int);
                    } else if x2 == x {
                        assert(rgb_similar(
                            rr@.rgb(xi as int, ry + i),
                            fr@.rgb(xi as int, fy + i),
                            tolerance,
                        ));
                    }
                }
            }
            x = x + stride as u64;
        }
        proof {
            assert forall|i2: int, x2: int|
                0 <= i2 < i + 1 && 0 <= x2 < w && x2 % (stride as int) == 0 implies rgb_similar(
                #[trigger] rr@.rgb(x2, ry + i2),
                #[trigger] fr@.rgb(x2, fy + i2),
                tolerance,
            ) by {
                if i2 == i as int {
                    assert(0 <= x2 < x && x2 < w && x2 % (stride as int) == 0);
                }
            }
        }
        i = i + 1;
    }
    true
}

/// Count the dissimilar pixels of the whole block, every column of every
/// row.
fn block_mismatch_count(
    rr: &Raster,
    ry: u32,
    fr: &Raster,
    fy: u32,
    w: u32,
    rows: u32,
    tolerance: u8,
) -> (n: u64)
    requires
        rr.wf(),
        fr.wf(),
        ry + rows <= rr@.height,
        fy + rows <= fr@.height,
        w <= rr@.width,
        w <= fr@.width,
    ensures
        n == block_mismatches(rr@, ry as int, fr@, fy as int, w as int, tolerance, rows as int),
{
    let mut n: u64 = 0;
    let mut i: u32 = 0;
    while i < rows
        invariant
            i <= rows,
            rr.wf(),
            fr.wf(),
            ry + rows <= rr@.height,
            fy + rows <= fr@.height,
            w <= rr@.width,
            w <= fr@.width,
            n == block_mismatches(rr@, ry as int, fr@, fy as int, w as int, tolerance, i as int),
            n <= (i as int) * (w as int),
        decreases rows - i,
    {
        let mut x: u32 = 0;
        while x < w
            invariant
                i < rows,
                x <= w,
                rr.wf(),
                fr.wf(),
                ry + rows <= rr@.height,
                fy + rows <= fr@.height,
                w <= rr@.width,
                w <= fr@.width,
                n == block_mismatches(rr@, ry as int, fr@, fy as int, w as int, tolerance, i as int)
                    + row_mismatches(rr@, ry + i, fr@, fy + i, tolerance, x as int),
                n <= (i as int) * (w as int) + (x as int),
            decreases w - x,
        {
            let p1 = rr.rgb_at(x, ry + i);
            let p2 = fr.rgb_at(x, fy + i);
            proof {
                assert((i as int) * (w as int) + (w as int) <= 0xffff_ffff * 0x1_0000_0000)
                    by (nonlinear_arith)
                    requires
                        0 <= (i as int) < 0xffff_ffff,
                        0 <= (w as int) <= 0xffff_ffff,
                ;
            }
            if !pixels_are_similar(p1, p2, tolerance) {
                n = n + 1;
            }
            x = x + 1;
        }
        proof {
            assert((i as int) * (w as int) + (w as int) == (i as int + 1) * (w as int))
                by (nonlinear_arith);
        }
        i = i + 1;
    }
    n
}

/// Strict verification of a block: let up to the configured fraction of
/// pixels exceed the tolerance.
fn strict_verify(
    rr: &Raster,
    ry: u32,
    fr: &Raster,
    fy: u32,
    w: u32,
    rows: u32,
    cfg: &DetectorConfig,
) -> (b: bool)
    requires
        rr.wf(),
        fr.wf(),
        ry + rows <= rr@.height,
        fy + rows <= fr@.height,
        w <= rr@.width,
        w <= fr@.width,
    ensures
        b == strict_pass(rr@, ry as int, fr@, fy as int, w as int, rows as int, *cfg),
{
    let n: u64 = block_mismatch_count(rr, ry, fr, fy, w, rows, cfg.tolerance);
    proof {
        assert(0 <= (w as int) * (rows as int) < 0x1_0000_0000_0000_0000_0000_0000
            && 0 <= (w as int) * (rows as int) * (cfg.mismatch_per_mille as int)
            < 0x1_0000_0000_0000_0000_0000_0000) by (nonlinear_arith)
            requires
                0 <= (w as int) < 0x1_0000_0000,
                0 <= (rows as int) < 0x1_0000_0000,
                0 <= (cfg.mismatch_per_mille as int) < 0x1_0000_0000,
        ;
    }
    let allowed: u128 = (w as u128) * (rows as u128) * (cfg.mismatch_per_mille as u128);
    (n as u128) * 1000 <= allowed
}

/// A frame that duplicates the composite tail: over the shared width,
/// every pixel of the candidate is within tolerance of the corresponding
/// pixel of the last `f.height` reference rows.  The same per-channel
/// tolerance as the offset search is used, so a pixel-identical frame is
/// the noise-free special case of a duplicate, not the only one.
pub open spec fn full_duplicate(r: RasterView, f: RasterView, cfg: DetectorConfig) -> bool {
    &&& f.height <= r.height
    &&& block_sampled_similar(
        r,
        r.height - f.height,
        f,
        0,
        cmp_width(r, f),
        f.height as int,
        1,
        cfg.tolerance,
    )
}

/// The signature block matches the candidate at offset `y`: both the
/// sparse sampled check and the strict verification pass.
pub open spec fn passes_at(r: RasterView, f: RasterView, cfg: DetectorConfig, y: int) -> bool {
    let rows = sig_rows(r, cfg);
    let ry = r.height - rows;
    let w = cmp_width(r, f);
    &&& block_sampled_similar(r, ry, f, y, w, rows, cfg.column_stride as int, cfg.tolerance)
    &&& strict_pass(r, ry, f, y, w, rows, cfg)
}

/// Offsets the search visits: within the depth bound, with room for the
/// whole signature block.
pub open spec fn offset_in_range(
    r: RasterView,
    f: RasterView,
    cfg: DetectorConfig,
    y: int,
) -> bool {
    0 <= y < search_depth(r, f) && y + sig_rows(r, cfg) <= f.height
}

/// `y` is the first offset at which the signature matches.
pub open spec fn first_pass_at(r: RasterView, f: RasterView, cfg: DetectorConfig, y: int) -> bool {
    &&& offset_in_range(r, f, cfg, y)
    &&& passes_at(r, f, cfg, y)
    &&& forall|j: int| 0 <= j < y ==> !passes_at(r, f, cfg, j)
}

/// There is at most one first matching offset.
pub proof fn lemma_first_pass_unique(
    r: RasterView,
    f: RasterView,
    cfg: DetectorConfig,
    y1: int,
    y2: int,
)
    requires
        first_pass_at(r, f, cfg, y1),
        first_pass_at(r, f, cfg, y2),
    ensures
        y1 == y2,
{
    if y1 < y2 {
        assert(!passes_at(r, f, cfg, y1));
    }
    if y2 < y1 {
        assert(!passes_at(r, f, cfg, y2));
    }
}

/// The result overlap detection must produce: the degenerate
/// short-circuits, then the full-duplicate test against the reference
/// tail, then the first matching offset within the search depth; `offset`
/// of a match counts the duplicated leading rows, signature included.
pub open spec fn detect_spec(r: RasterView, f: RasterView, cfg: DetectorConfig) -> OverlapResult {
    if degenerate(r, f, cfg) {
        OverlapResult { offset: 0, kind: OverlapKind::NoOverlap }
    } else if full_duplicate(r, f, cfg) {
        OverlapResult { offset: f.height as u32, kind: OverlapKind::FullDuplicate }
    } else if exists|y: int| first_pass_at(r, f, cfg, y) {
        let y = choose|y: int| first_pass_at(r, f, cfg, y);
        OverlapResult { offset: (y + sig_rows(r, cfg)) as u32, kind: OverlapKind::Matched }
    } else {
        OverlapResult { offset: 0, kind: OverlapKind::NoOverlap }
    }
}

/// Find how many leading rows of `candidate` duplicate the bottom of
/// `reference`.
///
/// A multi-row signature from the reference bottom is searched for in the
/// upper half of the candidate; a frame whose whole area stays within
/// tolerance of the reference tail is a `FullDuplicate`, and a fruitless
/// search is `NoOverlap`.
pub fn calculate_overlap(
    reference: &CompositeImage,
    candidate: &Frame,
    cfg: &DetectorConfig,
) -> (r: OverlapResult)
    requires
        reference.wf(),
        candidate.wf(),
        cfg.wf(),
    ensures
        r == detect_spec(reference@, candidate@, *cfg),
{
    let rr: &Raster = &reference.raster;
    let fr: &Raster = &candidate.raster;
    let rh: u32 = rr.height;
    let fh: u32 = fr.height;
    let sig: u32 = if cfg.signature_height <= rh {
        cfg.signature_height
    } else {
        rh
    };
    let w: u32 = if rr.width <= fr.width {
        rr.width
    } else {
        fr.width
    };
    if rr.width == 0 || rh == 0 || fr.width == 0 || fh == 0 || w < cfg.column_stride || fh < sig {
        return OverlapResult { offset: 0, kind: OverlapKind::NoOverlap };
    }
    if fh <= rh && block_sampled_similar_at(rr, rh - fh, fr, 0, w, fh, 1, cfg.tolerance) {
        return OverlapResult { offset: fh, kind: OverlapKind::FullDuplicate };
    }
    let depth: u32 = (if rh <= fh {
        rh
    } else {
        fh
    }) / 2;
    let ry: u32 = rh - sig;
    let mut y: u32 = 0;
    while y < depth
        invariant_except_break
            y <= depth,
            reference.wf(),
            candidate.wf(),
            cfg.wf(),
            rr == &reference.raster,
            fr == &candidate.raster,
            rh == rr@.height,
            fh == fr@.height,
            sig == sig_rows(rr@, *cfg),
            w == cmp_width(rr@, fr@),
            depth == search_depth(rr@, fr@),
            ry == rh - sig,
            sig <= fh,
            cfg.column_stride <= w,
            !degenerate(rr@, fr@, *cfg),
            !full_duplicate(rr@, fr@, *cfg),
            forall|j: int| 0 <= j < y ==> !passes_at(rr@, fr@, *cfg, j),
        ensures
            reference.wf(),
            candidate.wf(),
            cfg.wf(),
            rr == &reference.raster,
            fr == &candidate.raster,
            !degenerate(rr@, fr@, *cfg),
            !full_duplicate(rr@, fr@, *cfg),
            forall|j: int|
                offset_in_range(rr@, fr@, *cfg, j) ==> !passes_at(rr@, fr@, *cfg, j),
        decreases depth - y,
    {
        if (y as u64) + (sig as u64) > (fh as u64) {
            proof {
                assert forall|j: int|
                    offset_in_range(rr@, fr@, *cfg, j) implies !passes_at(rr@, fr@, *cfg, j) by {
                    if j >= y {
                        assert(j + sig_rows(rr@, *cfg) > fh);
                        assert(!offset_in_range(rr@, fr@, *cfg, j));
                    }
                }
            }
            break;
        }
        let sparse: bool = block_sampled_similar_at(
            rr,
            ry,
            fr,
            y,
            w,
            sig,
            cfg.column_stride,
            cfg.tolerance,
        );
        let ok: bool = if sparse {
            strict_verify(rr, ry, fr, y, w, sig, cfg)
        } else {
            false
        };
        if ok {
            proof {
                let rv = rr@;
                let fv = fr@;
                assert(first_pass_at(rv, fv, *cfg, y as int));
                assert(exists|j: int| first_pass_at(rv, fv, *cfg, j));
                let yc = choose|j: int| first_pass_at(rv, fv, *cfg, j);
                lemma_first_pass_unique(rv, fv, *cfg, yc, y as int);
            }
            return OverlapResult { offset: y + sig, kind: OverlapKind::Matched };
        }
        proof {
            assert(!passes_at(rr@, fr@, *cfg, y as int));
        }
        y = y + 1;
    }
    proof {
        assert forall|j: int| !first_pass_at(rr@, fr@, *cfg, j) by {
            if offset_in_range(rr@, fr@, *cfg, j) {
                assert(!passes_at(rr@, fr@, *cfg, j));
            }
        }
    }
    OverlapResult { offset: 0, kind: OverlapKind::NoOverlap }
}

/// A frame pixel-identical to the composite tail is reported as a full
/// duplicate, whenever the detector searches at all: the frame is no
/// taller than the composite, at least as tall as the signature block,
/// and no degenerate short-circuit applies.
pub proof fn lemma_identical_tail_full_duplicate(
    r: RasterView,
    f: RasterView,
    cfg: DetectorConfig,
)
    requires
        cfg.wf(),
        r.width == f.width,
        0 < f.width,
        0 < f.height <= r.height,
        cfg.column_stride <= f.width,
        sig_rows(r, cfg) <= f.height,
        forall|x: int, y: int, c: int|
            0 <= x < f.width && 0 <= y < f.height && 0 <= c < 4 ==> #[trigger] f.chan(x, y, c)
                == r.chan(x, r.height - f.height + y, c),
    ensures
        detect_spec(r, f, cfg) == (OverlapResult {
            offset: f.height as u32,
            kind: OverlapKind::FullDuplicate,
        }),
{
    assert(!degenerate(r, f, cfg));
    assert forall|i: int, x: int|
        0 <= i < f.height && 0 <= x < cmp_width(r, f) && x % 1int == 0 implies rgb_similar(
        #[trigger] r.rgb(x, (r.height - f.height) + i),
        #[trigger] f.rgb(x, 0 + i),
        cfg.tolerance,
    ) by {
        assert(f.chan(x, i, 0) == r.chan(x, r.height - f.height + i, 0));
        assert(f.chan(x, i, 1) == r.chan(x, r.height - f.height + i, 1));
        assert(f.chan(x, i, 2) == r.chan(x, r.height - f.height + i, 2));
    }
    assert(full_duplicate(r, f, cfg));
}

} // verus!
