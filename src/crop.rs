use vstd::prelude::*;
use vstd::arithmetic::div_mod::{lemma_fundamental_div_mod, lemma_fundamental_div_mod_converse};
use crate::geometry::{bounds_of, lefts, rights, tops, bottoms, seq_min, seq_max, CropRect, ScreenInfo, TotalBounds};

verus! {

/// `n / d` rounded to the nearest integer, halves rounded away from zero
/// (`d > 0`), as `f64::round` does.
pub open spec fn round_div(n: int, d: int) -> int {
    if n >= 0 {
        (2 * n + d) / (2 * d)
    } else {
        -((d - 2 * n) / (2 * d))
    }
}

pub open spec fn at_least_one(v: int) -> int {
    if v < 1 {
        1
    } else {
        v
    }
}

/// The cover-fit scale `max(img_w / tw, img_h / th)` as a fraction `(p, q)`;
/// a zero desktop extent counts as one pixel.
pub open spec fn cover_ratio(img_w: int, img_h: int, tw: int, th: int) -> (int, int) {
    if img_w * at_least_one(th) >= img_h * at_least_one(tw) {
        (img_w, at_least_one(tw))
    } else {
        (img_h, at_least_one(th))
    }
}

/// Offset that centres the scaled desktop extent on the image:
/// `round((img_dim - total * p / q) / 2)`.
pub open spec fn center_offset(img_dim: int, total: int, p: int, q: int) -> int {
    round_div(img_dim * q - total * p, 2 * q)
}

/// Crop origin before clamping: `round(delta * p / q + off)`.
pub open spec fn raw_start(delta: int, off: int, p: int, q: int) -> int {
    round_div(delta * p + off * q, q)
}

/// Crop extent before clamping: `round(extent * p / q)`.
pub open spec fn raw_len(extent: int, p: int, q: int) -> int {
    round_div(extent * p, q)
}

/// The origin clamped onto the image: into `[0, dim - 1]` (or `0` for an empty axis).
pub open spec fn clamp_start(raw: int, dim: int) -> int {
    if raw < 0 {
        0
    } else if raw < dim {
        raw
    } else if dim > 0 {
        dim - 1
    } else {
        0
    }
}

/// The extent from the clamped origin to the end of the raw span, cut at the
/// image edge, and at least one pixel.
pub open spec fn clip_len(raw: int, len: int, dim: int) -> int {
    let s = clamp_start(raw, dim);
    let end = if raw + len < dim {
        raw + len
    } else {
        dim
    };
    if end - s >= 1 {
        end - s
    } else {
        1
    }
}

/// Origin and extent of a crop along one axis.
pub open spec fn crop_span(delta: int, extent: int, total: int, img_dim: int, p: int, q: int) -> (
    int,
    int,
) {
    let raw = raw_start(delta, center_offset(img_dim, total, p, q), p, q);
    (clamp_start(raw, img_dim), clip_len(raw, raw_len(extent, p, q), img_dim))
}

/// The rectangle of a `img_w` x `img_h` source image that shows `screen` when the
/// whole virtual desktop `bounds` is cover-fitted onto the image.
pub open spec fn crop_of(screen: ScreenInfo, bounds: TotalBounds, img_w: int, img_h: int) -> CropRect {
    let (p, q) = cover_ratio(img_w, img_h, bounds.total_width as int, bounds.total_height as int);
    let (x, w) = crop_span(
        screen.x - bounds.min_x,
        screen.width as int,
        bounds.total_width as int,
        img_w,
        p,
        q,
    );
    let (y, h) = crop_span(
        screen.y - bounds.min_y,
        screen.height as int,
        bounds.total_height as int,
        img_h,
        p,
        q,
    );
    CropRect { x: x as u32, y: y as u32, width: w as u32, height: h as u32 }
}

pub(crate) const LIMIT: i128 = 0x1_0000_0000_0000_0000_0000_0000_0000;

/// `round_div(n, d)` is within half of `d` of `n / d`, scaled by `2 * d`.
proof fn lemma_round_bounds(n: int, d: int)
    requires
        d > 0,
    ensures
        2 * n - d <= 2 * d * round_div(n, d) <= 2 * n + d,
{
    if n >= 0 {
        let x = 2 * n + d;
        lemma_fundamental_div_mod(x, 2 * d);
        let r = x / (2 * d);
        assert(2 * n - d <= 2 * d * r <= 2 * n + d) by (nonlinear_arith)
            requires
                x == (2 * d) * r + x % (2 * d),
                0 <= x % (2 * d) < 2 * d,
                x == 2 * n + d,
        ;
    } else {
        let x = d - 2 * n;
        lemma_fundamental_div_mod(x, 2 * d);
        let r = x / (2 * d);
        assert(2 * n - d <= 2 * d * (-r) <= 2 * n + d) by (nonlinear_arith)
            requires
                x == (2 * d) * r + x % (2 * d),
                0 <= x % (2 * d) < 2 * d,
                x == d - 2 * n,
        ;
    }
}

/// `n / d` rounded to the nearest integer, halves away from zero.
pub(crate) fn round_div_exec(n: i128, d: i128) -> (r: i128)
    requires
        0 < d < LIMIT / 4,
        -LIMIT / 4 < n < LIMIT / 4,
    ensures
        r == round_div(n as int, d as int),
        n >= 0 ==> 0 <= r <= n + 1,
        n < 0 ==> n - 1 <= r <= 0,
{
    proof {
        lemma_round_bounds(n as int, d as int);
        let r = round_div(n as int, d as int);
        assert(n >= 0 ==> 0 <= r <= n + 1) by (nonlinear_arith)
            requires
                2 * n - d <= 2 * d * r <= 2 * n + d,
                d > 0,
        ;
        assert(n < 0 ==> n - 1 <= r <= 0) by (nonlinear_arith)
            requires
                2 * n - d <= 2 * d * r <= 2 * n + d,
                d > 0,
        ;
    }
    let dd = (2 * d) as u128;
    if n >= 0 {
        let x = (2 * n + d) as u128;
        (x / dd) as i128
    } else {
        let x = (d - 2 * n) as u128;
        -((x / dd) as i128)
    }
}

proof fn lemma_round_half_scaled(n: int, q: int)
    requires
        q > 0,
    ensures
        n - q <= 2 * (round_div(n, 2 * q) * q) <= n + q,
{
    lemma_round_bounds(n, 2 * q);
    let r = round_div(n, 2 * q);
    assert(n - q <= 2 * (r * q) <= n + q) by (nonlinear_arith)
        requires
            2 * n - 2 * q <= 2 * (2 * q) * r <= 2 * n + 2 * q,
    ;
}

/// Origin and extent of the crop along one axis, for a scale of `p / q`.
fn crop_span_exec(delta: i64, extent: u32, total: u64, img_dim: u32, p: u64, q: u64) -> (r: (
    u32,
    u32,
))
    requires
        1 <= q,
        p <= u32::MAX,
        -0x2_0000_0000 < delta < 0x2_0000_0000,
    ensures
        r.0 as int == crop_span(delta as int, extent as int, total as int, img_dim as int, p as int, q as int).0,
        r.1 as int == crop_span(delta as int, extent as int, total as int, img_dim as int, p as int, q as int).1,
{
    let pi = p as i128;
    let qi = q as i128;
    let dim = img_dim as i128;
    proof {
        assert(0 <= (img_dim as int) * (q as int) <= 0x1_0000_0000_0000_0000_0000_0000) by (nonlinear_arith)
            requires
                img_dim <= u32::MAX,
                q <= u64::MAX,
        ;
        assert(0 <= (total as int) * (p as int) <= 0x1_0000_0000_0000_0000_0000_0000) by (nonlinear_arith)
            requires
                total <= u64::MAX,
                p <= u32::MAX,
        ;
        assert(-0x4_0000_0000_0000_0000 <= (delta as int) * (p as int) <= 0x4_0000_0000_0000_0000) by (nonlinear_arith)
            requires
                -0x2_0000_0000 < delta < 0x2_0000_0000,
                0 <= p <= u32::MAX,
        ;
        assert(0 <= (extent as int) * (p as int) <= 0x1_0000_0000_0000_0000) by (nonlinear_arith)
            requires
                extent <= u32::MAX,
                p <= u32::MAX,
        ;
    }
    let off = round_div_exec(dim * qi - (total as i128) * pi, 2 * qi);
    proof {
        lemma_round_half_scaled((img_dim as int) * (q as int) - (total as int) * (p as int), q as int);
    }
    let raw = round_div_exec((delta as i128) * pi + off * qi, qi);
    let len = round_div_exec((extent as i128) * pi, qi);
    proof {
    }
    let start: i128 = if raw < 0 {
        0
    } else if raw < dim {
        raw
    } else if dim > 0 {
        dim - 1
    } else {
        0
    };
    let end: i128 = if raw + len < dim {
        raw + len
    } else {
        dim
    };
    let span: i128 = if end - start >= 1 {
        end - start
    } else {
        1
    };
    (start as u32, span as u32)
}

/// The cover-fit scale of an `img_w` x `img_h` image over a `tw` x `th` desktop,
/// as a fraction `(p, q)`.
pub fn cover_scale(img_w: u32, img_h: u32, tw: u64, th: u64) -> (r: (u64, u64))
    ensures
        (r.0 as int, r.1 as int) == cover_ratio(img_w as int, img_h as int, tw as int, th as int),
        r.0 <= u32::MAX,
        r.1 >= 1,
{
    let tw1: u64 = if tw < 1 {
        1
    } else {
        tw
    };
    let th1: u64 = if th < 1 {
        1
    } else {
        th
    };
    proof {
        assert(0 <= (img_w as int) * (th1 as int) <= 0x1_0000_0000_0000_0000_0000_0000) by (nonlinear_arith)
            requires
                img_w <= u32::MAX,
                th1 <= u64::MAX,
        ;
        assert(0 <= (img_h as int) * (tw1 as int) <= 0x1_0000_0000_0000_0000_0000_0000) by (nonlinear_arith)
            requires
                img_h <= u32::MAX,
                tw1 <= u64::MAX,
        ;
    }
    if (img_w as u128) * (th1 as u128) >= (img_h as u128) * (tw1 as u128) {
        (img_w as u64, tw1)
    } else {
        (img_h as u64, th1)
    }
}

/// The rectangle of an `img_w` x `img_h` source image that shows `screen` when
/// the whole virtual desktop `bounds` is cover-fitted and centred on the image.
///
/// The rectangle never leaves the image and is at least one pixel wide and high.
pub fn crop_rect(screen: &ScreenInfo, bounds: &TotalBounds, img_w: u32, img_h: u32) -> (r: CropRect)
    ensures
        r == crop_of(*screen, *bounds, img_w as int, img_h as int),
        r.width >= 1,
        r.height >= 1,
        img_w >= 1 ==> r.x + r.width <= img_w,
        img_h >= 1 ==> r.y + r.height <= img_h,
{
    let (p, q) = cover_scale(img_w, img_h, bounds.total_width, bounds.total_height);
    let (x, w) = crop_span_exec(
        screen.x as i64 - bounds.min_x as i64,
        screen.width,
        bounds.total_width,
        img_w,
        p,
        q,
    );
    let (y, h) = crop_span_exec(
        screen.y as i64 - bounds.min_y as i64,
        screen.height,
        bounds.total_height,
        img_h,
        p,
        q,
    );
    CropRect { x, y, width: w, height: h }
}

/// A logical length in physical pixels: `round(logical * permille / 1000)`,
/// at least one and at most `u32::MAX`.
pub open spec fn physical_len(logical: int, permille: int) -> int {
    let v = round_div(logical * permille, 1000);
    if v < 1 {
        1
    } else if v > u32::MAX {
        u32::MAX as int
    } else {
        v
    }
}

/// The physical pixel size of a screen, the size each wallpaper is rendered at.
pub fn output_size(screen: &ScreenInfo) -> (r: (u32, u32))
    ensures
        r.0 as int == physical_len(screen.width as int, screen.scale_permille as int),
        r.1 as int == physical_len(screen.height as int, screen.scale_permille as int),
{
    (physical_len_exec(screen.width, screen.scale_permille), physical_len_exec(
        screen.height,
        screen.scale_permille,
    ))
}

fn physical_len_exec(logical: u32, permille: u32) -> (r: u32)
    ensures
        r as int == physical_len(logical as int, permille as int),
{
    proof {
        assert(0 <= (logical as int) * (permille as int) <= 0x1_0000_0000_0000_0000) by (nonlinear_arith)
            requires
                logical <= u32::MAX,
                permille <= u32::MAX,
        ;
    }
    let v = round_div_exec((logical as i128) * (permille as i128), 1000);
    if v < 1 {
        1
    } else if v > u32::MAX as i128 {
        u32::MAX
    } else {
        v as u32
    }
}

proof fn lemma_round_div_exact(k: int, d: int)
    requires
        d > 0,
    ensures
        round_div(k * d, d) == k,
{
    if k >= 0 {
        assert(k * d >= 0) by (nonlinear_arith)
            requires
                k >= 0,
                d > 0,
        ;
        assert(2 * (k * d) + d == k * (2 * d) + d) by (nonlinear_arith);
        lemma_fundamental_div_mod_converse(2 * (k * d) + d, 2 * d, k, d);
    } else {
        assert(k * d < 0) by (nonlinear_arith)
            requires
                k < 0,
                d > 0,
        ;
        assert(d - 2 * (k * d) == (-k) * (2 * d) + d) by (nonlinear_arith);
        lemma_fundamental_div_mod_converse(d - 2 * (k * d), 2 * d, -k, d);
    }
}

/// The cover-fit scale covers the desktop on both axes: `img * q <= total * p`.
proof fn lemma_cover_dominates(img_w: int, img_h: int, tw: int, th: int)
    requires
        tw >= 1,
        th >= 1,
    ensures
        ({
            let (p, q) = cover_ratio(img_w, img_h, tw, th);
            img_w * q <= tw * p && img_h * q <= th * p && q >= 1
        }),
{
    let (p, q) = cover_ratio(img_w, img_h, tw, th);
    if img_w * th >= img_h * tw {
        assert(img_w * tw <= tw * img_w) by (nonlinear_arith);
        assert(img_h * tw <= th * img_w) by (nonlinear_arith)
            requires
                img_w * th >= img_h * tw,
        ;
    } else {
        assert(img_w * th <= tw * img_h) by (nonlinear_arith)
            requires
                img_w * th < img_h * tw,
        ;
        assert(img_h * th <= th * img_h) by (nonlinear_arith);
    }
}

/// One screen whose aspect ratio equals the image's is shown by the whole
/// image: nothing is cropped away.
pub proof fn lemma_matching_aspect_shows_whole_image(screen: ScreenInfo, img_w: u32, img_h: u32)
    requires
        screen.width >= 1,
        screen.height >= 1,
        img_w >= 1,
        img_h >= 1,
        img_w * screen.height == img_h * screen.width,
    ensures
        crop_of(screen, bounds_of(seq![screen]), img_w as int, img_h as int) == (CropRect {
            x: 0,
            y: 0,
            width: img_w,
            height: img_h,
        }),
{
    let s = seq![screen];
    assert(lefts(s) =~= seq![screen.x as int]);
    assert(tops(s) =~= seq![screen.y as int]);
    assert(rights(s) =~= seq![screen.x + screen.width]);
    assert(bottoms(s) =~= seq![screen.y + screen.height]);
    let b = bounds_of(s);
    assert(b.min_x == screen.x && b.min_y == screen.y);
    assert(b.total_width == screen.width && b.total_height == screen.height);
    let w = screen.width as int;
    let h = screen.height as int;
    let iw = img_w as int;
    let ih = img_h as int;
    assert(cover_ratio(iw, ih, w, h) == (iw, w));
    lemma_round_div_exact(0, 2 * w);
    lemma_round_div_exact(0, w);
    lemma_round_div_exact(iw, w);
    lemma_round_div_exact(ih, w);
    assert(iw * w - w * iw == 0 * (2 * w)) by (nonlinear_arith);
    assert(ih * w - h * iw == 0 * (2 * w)) by (nonlinear_arith)
        requires
            iw * h == ih * w,
    ;
    assert(0 * iw + 0 * w == 0 * w) by (nonlinear_arith);
    assert(w * iw == iw * w) by (nonlinear_arith);
    assert(h * iw == ih * w) by (nonlinear_arith)
        requires
            iw * h == ih * w,
    ;
}

/// Two side-by-side screens of the same size meet in the image: the right
/// one's crop starts exactly where the left one's ends, with no gap and no
/// overlap, and that point is the right screen's own unclamped left edge.
/// (An image narrower than three pixels cannot be split so.)
pub proof fn lemma_adjacent_screens_meet(a: ScreenInfo, b: ScreenInfo, img_w: u32, img_h: u32)
    requires
        a.width >= 1,
        a.height >= 1,
        b.width == a.width,
        b.height == a.height,
        b.x == a.x + a.width,
        b.y == a.y,
        img_w >= 3,
        img_h >= 1,
    ensures
        ({
            let bounds = bounds_of(seq![a, b]);
            let ca = crop_of(a, bounds, img_w as int, img_h as int);
            let cb = crop_of(b, bounds, img_w as int, img_h as int);
            let (p, q) = cover_ratio(
                img_w as int,
                img_h as int,
                bounds.total_width as int,
                bounds.total_height as int,
            );
            let edge = raw_start(
                b.x - bounds.min_x,
                center_offset(img_w as int, bounds.total_width as int, p, q),
                p,
                q,
            );
            &&& cb.x == ca.x + ca.width
            &&& cb.x == edge
            &&& cb.y == ca.y
            &&& cb.height == ca.height
        }),
{
    let s = seq![a, b];
    assert(lefts(s) =~= seq![a.x as int, b.x as int]);
    assert(tops(s) =~= seq![a.y as int, b.y as int]);
    assert(rights(s) =~= seq![a.x + a.width, b.x + b.width]);
    assert(bottoms(s) =~= seq![a.y + a.height, b.y + b.height]);
    assert(seq![a.x as int, b.x as int].drop_last() =~= seq![a.x as int]);
    assert(seq![a.y as int, b.y as int].drop_last() =~= seq![a.y as int]);
    assert(seq![a.x + a.width, b.x + b.width].drop_last() =~= seq![a.x + a.width]);
    assert(seq![a.y + a.height, b.y + b.height].drop_last() =~= seq![a.y + a.height]);
    assert(seq_min(seq![a.x as int]) == a.x);
    assert(seq_min(seq![a.y as int]) == a.y);
    assert(seq_max(seq![a.x + a.width]) == a.x + a.width);
    assert(seq_max(seq![a.y + a.height]) == a.y + a.height);
    assert(seq_min(lefts(s)) == a.x);
    assert(seq_min(tops(s)) == a.y);
    assert(seq_max(rights(s)) == b.x + b.width);
    assert(seq_max(bottoms(s)) == a.y + a.height);
    let bd = bounds_of(s);
    let w = a.width as int;
    let iw = img_w as int;
    assert(bd.min_x == a.x);
    assert(bd.total_width == 2 * w);
    let (p, q) = cover_ratio(iw, img_h as int, bd.total_width as int, bd.total_height as int);
    lemma_cover_dominates(iw, img_h as int, bd.total_width as int, bd.total_height as int);
    let n = iw * q - (2 * w) * p;
    let off = center_offset(iw, 2 * w, p, q);
    assert(off == round_div(n, 2 * q));
    lemma_round_half_scaled(n, q);
    // the left screen starts at the centring offset, which is not positive
    lemma_round_div_exact(off, q);
    assert(0 * p + off * q == off * q);
    assert(raw_start(0, off, p, q) == off);
    lemma_round_bounds(n, 2 * q);
    assert(off <= 0) by (nonlinear_arith)
        requires
            2 * (2 * q) * off <= 2 * n + 2 * q,
            n <= 0,
            q >= 1,
    ;
    // the right screen starts one rounded screen width further
    let rl = raw_len(w, p, q);
    let x = 2 * (w * p) + q;
    assert(w * p >= 0) by (nonlinear_arith)
        requires
            w >= 1,
            p >= 0,
    ;
    assert(w * p + off * q >= 0) by (nonlinear_arith)
        requires
            n - q <= 2 * (off * q),
            n == iw * q - (2 * w) * p,
            q >= 1,
            iw >= 3,
    ;
    lemma_fundamental_div_mod(x, 2 * q);
    assert(rl == x / (2 * q));
    assert(2 * (w * p + off * q) + q == (2 * q) * (rl + off) + x % (2 * q)) by (nonlinear_arith)
        requires
            x == (2 * q) * rl + x % (2 * q),
            x == 2 * (w * p) + q,
    ;
    lemma_fundamental_div_mod_converse(2 * (w * p + off * q) + q, 2 * q, rl + off, x % (2 * q));
    assert(raw_start(w, off, p, q) == rl + off);
    // and that start lies strictly inside the image
    assert(1 <= rl + off <= iw - 1) by (nonlinear_arith)
        requires
            n - q <= 2 * (off * q),
            2 * (off * q) <= n + q,
            x == (2 * q) * rl + x % (2 * q),
            0 <= x % (2 * q) < 2 * q,
            x == 2 * (w * p) + q,
            n == iw * q - (2 * w) * p,
            q >= 1,
            iw >= 3,
    ;
}

} // verus!
