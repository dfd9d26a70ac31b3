//! The XRGB8888 pixel format and the verified byte-level primitives shared by
//! every drawing routine: filling a run of pixels with one colour.

use vstd::prelude::*;

verus! {

/// Number of bytes of one XRGB8888 pixel.
pub const BYTES_PER_PIXEL: usize = 4;

/// Byte `channel` (0 to 3) of a pixel of colour `color` = (red, green, blue)
/// in XRGB8888 memory order: blue, green, red, then an unused byte that is
/// always written as zero.
pub open spec fn xrgb_byte(color: (u8, u8, u8), channel: int) -> u8 {
    if channel == 0 {
        color.2
    } else if channel == 1 {
        color.1
    } else if channel == 2 {
        color.0
    } else {
        0
    }
}

/// The byte order of an XRGB8888 pixel: blue first, then green, then red, then
/// a zero byte; and an RGBA source pixel converts to it with the same colour
/// and no alpha, while a verbatim copy keeps all four bytes in place.
pub proof fn lemma_xrgb_layout(color: (u8, u8, u8), src: Seq<u8>, base: int)
    ensures
        xrgb_byte(color, 0) == color.2,
        xrgb_byte(color, 1) == color.1,
        xrgb_byte(color, 2) == color.0,
        xrgb_byte(color, 3) == 0,
        converted_byte(src, base, 0, PixelConversion::RgbaToXrgb) == src[base + 2],
        converted_byte(src, base, 1, PixelConversion::RgbaToXrgb) == src[base + 1],
        converted_byte(src, base, 2, PixelConversion::RgbaToXrgb) == src[base],
        converted_byte(src, base, 3, PixelConversion::RgbaToXrgb) == 0,
        forall|c: int| 0 <= c < 4 ==> #[trigger] converted_byte(src, base, c, PixelConversion::Verbatim) == src[base + c],
{
}

/// The framebuffer `old` after pixels `first .. last` (pixel `p` occupies bytes
/// `4 * p .. 4 * p + 4`) have been painted with `color`.
pub open spec fn filled(old: Seq<u8>, first: int, last: int, color: (u8, u8, u8)) -> Seq<u8> {
    Seq::new(
        old.len(),
        |k: int|
            if first * 4 <= k < last * 4 {
                xrgb_byte(color, k % 4)
            } else {
                old[k]
            },
    )
}

/// Paints pixels `first .. last` of `fb` with `color`, one pixel after the other.
pub fn fill_pixel_range(fb: &mut [u8], first: usize, last: usize, color: (u8, u8, u8))
    requires
        first <= last,
        last * 4 <= old(fb)@.len(),
    ensures
        final(fb)@ == filled(old(fb)@, first as int, last as int, color),
{
    let ghost start = fb@;
    let len: usize = fb.len();
    let mut p: usize = first;
    while p < last
        invariant
            first <= p <= last,
            last * 4 <= start.len(),
            len == start.len(),
            fb@ == filled(start, first as int, p as int, color),
        decreases last - p,
    {
        let offset: usize = p * 4;
        fb[offset] = color.2;
        fb[offset + 1] = color.1;
        fb[offset + 2] = color.0;
        fb[offset + 3] = 0;
        p = p + 1;
        assert(fb@ =~= filled(start, first as int, p as int, color));
    }
}

} // verus!

verus! {

/// How a source pixel is turned into a framebuffer pixel when it is copied.
#[derive(Clone, Copy)]
pub enum PixelConversion {
    /// The four bytes are copied unchanged.
    Verbatim,
    /// An RGBA pixel becomes XRGB8888: blue, green, red, then a zero byte
    /// (the alpha value is dropped).
    RgbaToXrgb,
}

/// Byte `channel` of the framebuffer pixel made from the source pixel whose
/// first byte is `src[base]`.
pub open spec fn converted_byte(src: Seq<u8>, base: int, channel: int, conv: PixelConversion) -> u8 {
    match conv {
        PixelConversion::Verbatim => src[base + channel],
        PixelConversion::RgbaToXrgb => if channel == 3 {
            0
        } else {
            src[base + 2 - channel]
        },
    }
}

/// Row of the pixel that byte `k` belongs to, in a framebuffer `width` pixels wide.
pub open spec fn pixel_row(k: int, width: int) -> int {
    (k / 4) / width
}

/// Column of the pixel that byte `k` belongs to, in a framebuffer `width` pixels wide.
pub open spec fn pixel_col(k: int, width: int) -> int {
    (k / 4) % width
}

/// Whether byte `k` of a `width` x `height` framebuffer lies in a pixel of the
/// `w` x `h` rectangle whose top-left corner is at column `ox`, row `oy`, after
/// the rectangle has been clipped to the screen.
pub open spec fn in_clipped_rect(
    k: int,
    width: int,
    height: int,
    ox: int,
    oy: int,
    w: int,
    h: int,
) -> bool {
    &&& width > 0
    &&& pixel_row(k, width) < height
    &&& ox <= pixel_col(k, width) < ox + w
    &&& oy <= pixel_row(k, width) < oy + h
}

/// The framebuffer `old` after the `w` x `h` rectangle at (`ox`, `oy`) has been
/// drawn from `src`, clipped to the screen. The source pixel for the rectangle's
/// column `c` and row `r` is pixel `(sy + r) * stride + sx + c` of `src`; every
/// byte outside the visible part of the rectangle keeps its value.
pub open spec fn rect_copied(
    old: Seq<u8>,
    src: Seq<u8>,
    width: int,
    height: int,
    ox: int,
    oy: int,
    w: int,
    h: int,
    stride: int,
    sx: int,
    sy: int,
    conv: PixelConversion,
) -> Seq<u8> {
    Seq::new(
        old.len(),
        |k: int|
            if in_clipped_rect(k, width, height, ox, oy, w, h) {
                converted_byte(
                    src,
                    ((sy + pixel_row(k, width) - oy) * stride + sx + pixel_col(k, width) - ox) * 4,
                    k % 4,
                    conv,
                )
            } else {
                old[k]
            },
    )
}

/// How many of the `size` pixels starting at `origin` lie before `limit`.
pub open spec fn clip_len(origin: int, size: int, limit: int) -> int {
    if origin >= limit {
        0
    } else if size < limit - origin {
        size
    } else {
        limit - origin
    }
}

/// Every byte of the visible part of the rectangle lies inside a framebuffer of
/// `len` bytes.
pub open spec fn rect_fits(len: int, width: int, height: int, ox: int, oy: int, w: int, h: int) -> bool {
    let vc: int = clip_len(ox, w, width);
    let vr: int = clip_len(oy, h, height);
    vc == 0 || vr == 0 || ((oy + vr - 1) * width + ox + vc) * 4 <= len
}

/// Every source pixel read for the `vc` x `vr` visible part lies inside a
/// source of `len` bytes.
pub open spec fn source_fits(len: int, stride: int, sx: int, sy: int, vc: int, vr: int) -> bool {
    vc == 0 || vr == 0 || ((sy + vr - 1) * stride + sx + vc) * 4 <= len
}

/// The framebuffer `old` after `count` pixels starting at pixel `dst` have been
/// drawn from the pixels of `src` starting at pixel `from`.
pub open spec fn span_copied(
    old: Seq<u8>,
    src: Seq<u8>,
    dst: int,
    from: int,
    count: int,
    conv: PixelConversion,
) -> Seq<u8> {
    Seq::new(
        old.len(),
        |k: int|
            if dst * 4 <= k < (dst + count) * 4 {
                converted_byte(src, (from + k / 4 - dst) * 4, k % 4, conv)
            } else {
                old[k]
            },
    )
}

/// Pixel `p` of a framebuffer `width` pixels wide lies in row `row`, between
/// columns `c0` and `c0 + n`, exactly when `p` lies in the corresponding run of
/// pixel indices.
pub proof fn lemma_row_run(p: int, width: int, row: int, c0: int, n: int)
    requires
        width > 0,
        p >= 0,
        row >= 0,
        0 <= c0,
        n >= 0,
        c0 + n <= width,
    ensures
        (row * width + c0 <= p < row * width + c0 + n) <==> (p / width == row && c0 <= p % width
            < c0 + n),
{
    vstd::arithmetic::div_mod::lemma_fundamental_div_mod(p, width);
    let q: int = p / width;
    let m: int = p % width;
    assert(0 <= m < width);
    if row * width + c0 <= p < row * width + c0 + n {
        assert(q == row) by (nonlinear_arith)
            requires
                p == width * q + m,
                0 <= m < width,
                row * width + c0 <= p < row * width + c0 + n,
                0 <= c0,
                c0 + n <= width,
        ;
    }
    if q == row {
        assert(p == row * width + m) by (nonlinear_arith)
            requires
                p == width * q + m,
                q == row,
        ;
    }
}

/// Draws `count` pixels starting at pixel `dst` from the pixels of `src`
/// starting at pixel `from`.
fn copy_span(
    fb: &mut [u8],
    src: &[u8],
    dst: usize,
    from: usize,
    count: usize,
    conv: PixelConversion,
)
    requires
        (dst + count) * 4 <= old(fb)@.len(),
        (from + count) * 4 <= src@.len(),
    ensures
        final(fb)@ == span_copied(old(fb)@, src@, dst as int, from as int, count as int, conv),
{
    let ghost start = fb@;
    let len: usize = fb.len();
    let src_len: usize = src.len();
    let mut q: usize = 0;
    while q < count
        invariant
            q <= count,
            (dst + count) * 4 <= start.len(),
            (from + count) * 4 <= src@.len(),
            len == start.len(),
            src_len == src@.len(),
            fb@ == span_copied(start, src@, dst as int, from as int, q as int, conv),
        decreases count - q,
    {
        let d: usize = (dst + q) * 4;
        let s: usize = (from + q) * 4;
        match conv {
            PixelConversion::Verbatim => {
                fb[d] = src[s];
                fb[d + 1] = src[s + 1];
                fb[d + 2] = src[s + 2];
                fb[d + 3] = src[s + 3];
            },
            PixelConversion::RgbaToXrgb => {
                fb[d] = src[s + 2];
                fb[d + 1] = src[s + 1];
                fb[d + 2] = src[s];
                fb[d + 3] = 0;
            },
        }
        q = q + 1;
        assert(fb@ =~= span_copied(start, src@, dst as int, from as int, q as int, conv));
    }
}

} // verus!

verus! {

/// Draws the `w` x `h` rectangle at column `ox`, row `oy` of a `width` x
/// `height` framebuffer from `src`, clipped to the screen, one row after the
/// other. The source pixel for the rectangle's column `c` and row `r` is pixel
/// `(sy + r) * stride + sx + c` of `src`.
pub fn copy_rect(
    fb: &mut [u8],
    src: &[u8],
    width: usize,
    height: usize,
    ox: usize,
    oy: usize,
    w: usize,
    h: usize,
    stride: usize,
    sx: usize,
    sy: usize,
    conv: PixelConversion,
)
    requires
        rect_fits(old(fb)@.len() as int, width as int, height as int, ox as int, oy as int, w as int, h as int),
        sy + clip_len(oy as int, h as int, height as int) <= usize::MAX,
        source_fits(
            src@.len() as int,
            stride as int,
            sx as int,
            sy as int,
            clip_len(ox as int, w as int, width as int),
            clip_len(oy as int, h as int, height as int),
        ),
    ensures
        final(fb)@ == rect_copied(
            old(fb)@,
            src@,
            width as int,
            height as int,
            ox as int,
            oy as int,
            w as int,
            h as int,
            stride as int,
            sx as int,
            sy as int,
            conv,
        ),
{
    let ghost start = fb@;
    let vc: usize = if ox >= width {
        0
    } else if w < width - ox {
        w
    } else {
        width - ox
    };
    let vr: usize = if oy >= height {
        0
    } else if h < height - oy {
        h
    } else {
        height - oy
    };
    if vc == 0 || vr == 0 {
        assert(fb@ =~= rect_copied(
            start, src@, width as int, height as int, ox as int, oy as int, w as int, h as int,
            stride as int, sx as int, sy as int, conv,
        ));
        return ;
    }
    let len: usize = fb.len();
    let src_len: usize = src.len();
    let mut r: usize = 0;
    while r < vr
        invariant
            r <= vr,
            len == start.len(),
            src_len == src@.len(),
            0 < vc,
            0 < vr,
            ox + vc <= width,
            oy + vr <= height,
            ((oy + vr - 1) * width + ox + vc) * 4 <= start.len(),
            ((sy + vr - 1) * stride + sx + vc) * 4 <= src@.len(),
            sy + vr <= usize::MAX,
            fb@ == rect_copied(
                start, src@, width as int, height as int, ox as int, oy as int, vc as int,
                r as int, stride as int, sx as int, sy as int, conv,
            ),
        decreases vr - r,
    {
        proof {
            vstd::arithmetic::mul::lemma_mul_inequality(
                (oy + r) as int,
                (oy + vr - 1) as int,
                width as int,
            );
            vstd::arithmetic::mul::lemma_mul_inequality(
                (sy + r) as int,
                (sy + vr - 1) as int,
                stride as int,
            );
        }
        let dst: usize = (oy + r) * width + ox;
        let from: usize = (sy + r) * stride + sx;
        let ghost before = fb@;
        copy_span(fb, src, dst, from, vc, conv);
        proof {
            let next = rect_copied(
                start, src@, width as int, height as int, ox as int, oy as int, vc as int,
                (r + 1) as int, stride as int, sx as int, sy as int, conv,
            );
            assert forall|k: int| 0 <= k < fb@.len() implies fb@[k] == next[k] by {
                let p: int = k / 4;
                lemma_row_run(p, width as int, (oy + r) as int, ox as int, vc as int);
                vstd::arithmetic::div_mod::lemma_fundamental_div_mod(p, width as int);
                let row: int = pixel_row(k, width as int);
                let col: int = pixel_col(k, width as int);
                assert(p == width * row + col);
                if dst * 4 <= k < (dst + vc) * 4 {
                    assert(dst <= p < dst + vc);
                    assert(row == oy + r);
                    assert(p == (oy + r) * width + col) by (nonlinear_arith)
                        requires p == width * row + col, row == oy + r;
                    assert(in_clipped_rect(k, width as int, height as int, ox as int, oy as int, vc as int, (r + 1) as int));
                    assert(from + p - dst == (sy + row - oy) * stride + sx + col - ox);
                } else {
                    assert(!(dst <= p < dst + vc));
                    assert(fb@[k] == before[k]);
                }
            }
            assert(fb@ =~= next);
        }
        r = r + 1;
    }
    assert(fb@ =~= rect_copied(
        start, src@, width as int, height as int, ox as int, oy as int, w as int, h as int,
        stride as int, sx as int, sy as int, conv,
    ));
}

/// Whether the visible part of the `w` x `h` rectangle at (`ox`, `oy`) of a
/// `width` x `height` screen lies inside a buffer of `len` bytes.
pub fn rect_fits_in(
    len: usize,
    width: usize,
    height: usize,
    ox: usize,
    oy: usize,
    w: usize,
    h: usize,
) -> (fits: bool)
    ensures
        fits == rect_fits(len as int, width as int, height as int, ox as int, oy as int, w as int, h as int),
{
    let vc: usize = if ox >= width {
        0
    } else if w < width - ox {
        w
    } else {
        width - ox
    };
    let vr: usize = if oy >= height {
        0
    } else if h < height - oy {
        h
    } else {
        height - oy
    };
    if vc == 0 || vr == 0 {
        return true;
    }
    let last_row: usize = oy + vr - 1;
    match last_row.checked_mul(width) {
        None => {
            assert(((oy + vr - 1) * width + ox + vc) * 4 > len) by (nonlinear_arith)
                requires last_row * width > usize::MAX, len <= usize::MAX, ox >= 0, vc >= 0, last_row == oy + vr - 1;
            false
        },
        Some(row_start) => match row_start.checked_add(ox) {
            None => false,
            Some(a) => match a.checked_add(vc) {
                None => false,
                Some(b) => match b.checked_mul(4) {
                    None => false,
                    Some(end) => end <= len,
                },
            },
        },
    }
}

} // verus!
