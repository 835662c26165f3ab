//! Rasterization. Span-based: primitives are broken into horizontal pixel spans, per-span state is
//! resolved to plain integers up front, and the span loop is branch-free per pixel.
//!
//! The memory effect of every primitive is stated as a sequence of pixel stores in row-major
//! order (`paint_span`, `paint_rows`), so later stores win where addresses coincide (which can
//! happen: fill mode may paint past the right edge of a row, into the next one).
use vstd::prelude::*;
use crate::rdram::{
    Rdram, store16, store32, load16, load32, load16_of_store16, load32_of_store32, store16_frame,
    store32_frame,
};
use crate::state::{State, field12, lemma_word_fields};

verus! {

/// Where and what a primitive writes: framebuffer base, row stride in pixels, pixel size code
/// (2 = 16bpp, 3 = 32bpp), and the pixel values. 16bpp pixels at even x get the low 16 bits of
/// `even`, at odd x those of `odd`; 32bpp pixels get `even`.
pub struct PixelTarget {
    pub base: u32,
    pub stride: u32,
    pub size: u32,
    pub even: u32,
    pub odd: u32,
}

impl PixelTarget {
    pub open spec fn bpp(self) -> int {
        if self.size == 2 {
            2
        } else {
            4
        }
    }

    pub open spec fn row_addr(self, y: int) -> int {
        self.base + y * self.stride * self.bpp()
    }

    pub open spec fn pixel_addr(self, y: int, x: int) -> int {
        self.row_addr(y) + x * self.bpp()
    }

    /// The start address of row `y` is computed without overflow.
    pub open spec fn row_fits(self, y: int) -> bool {
        0 <= y && self.row_addr(y) <= u32::MAX
    }

    /// Pixel (x, y) lies in accessible memory and its address is computed without overflow.
    pub open spec fn pixel_ok(self, dom: Set<u32>, y: int, x: int) -> bool {
        &&& 0 <= y
        &&& 0 <= x
        &&& self.pixel_addr(y, x) + self.bpp() <= u32::MAX + 1
        &&& forall|i: int|
            0 <= i < self.bpp() ==> #[trigger] dom.contains((self.pixel_addr(y, x) + i) as u32)
    }

    /// Every pixel of the span x0..=x1 of row y is ok.
    pub open spec fn span_ok(self, dom: Set<u32>, y: int, x0: int, x1: int) -> bool {
        forall|x: int| x0 <= x <= x1 ==> #[trigger] self.pixel_ok(dom, y, x)
    }

    /// The 16-bit value of a pixel at column x.
    pub open spec fn value16(self, x: int) -> u16 {
        ((if x % 2 == 0 {
            self.even
        } else {
            self.odd
        }) % 0x10000) as u16
    }

    /// Memory after storing pixel (x, y).
    pub open spec fn put(self, m: Map<u32, u8>, y: int, x: int) -> Map<u32, u8> {
        if self.size == 2 {
            store16(m, self.pixel_addr(y, x) as u32, self.value16(x))
        } else {
            store32(m, self.pixel_addr(y, x) as u32, self.even)
        }
    }

    /// Memory after storing pixels x0, x0 + 1, ..., x1 of row y, in that order.
    pub open spec fn paint_span(self, m: Map<u32, u8>, y: int, x0: int, x1: int) -> Map<u32, u8>
        decreases x1 - x0 + 1,
    {
        if x1 < x0 {
            m
        } else {
            self.put(self.paint_span(m, y, x0, x1 - 1), y, x1)
        }
    }

    /// Memory after painting the span x0..=x1 on the rows y0, y0 + 1, ..., y1, in that order.
    pub open spec fn paint_rows(self, m: Map<u32, u8>, y0: int, y1: int, x0: int, x1: int) -> Map<
        u32,
        u8,
    >
        decreases y1 - y0 + 1,
    {
        if y1 < y0 {
            m
        } else {
            self.paint_span(self.paint_rows(m, y0, y1 - 1, x0, x1), y1, x0, x1)
        }
    }

    /// Every row y0..=y1 has a computable start and an ok span x0..=x1.
    pub open spec fn rows_ok(self, dom: Set<u32>, y0: int, y1: int, x0: int, x1: int) -> bool {
        forall|y: int| y0 <= y <= y1 ==> #[trigger] self.row_ok(dom, y, x0, x1)
    }

    /// Row y has a computable start and an ok span x0..=x1.
    pub open spec fn row_ok(self, dom: Set<u32>, y: int, x0: int, x1: int) -> bool {
        self.row_fits(y) && self.span_ok(dom, y, x0, x1)
    }
}

pub proof fn lemma_put_dom(t: PixelTarget, m: Map<u32, u8>, y: int, x: int)
    requires
        t.pixel_ok(m.dom(), y, x),
    ensures
        t.put(m, y, x).dom() == m.dom(),
{
    let a = t.pixel_addr(y, x);
    assert(m.dom().contains((a + 0) as u32));
    assert(m.dom().contains((a + 1) as u32));
    if t.size == 2 {
        assert(t.put(m, y, x).dom() =~= m.dom());
    } else {
        assert(m.dom().contains((a + 2) as u32));
        assert(m.dom().contains((a + 3) as u32));
        assert(t.put(m, y, x).dom() =~= m.dom());
    }
}

pub proof fn lemma_paint_span_dom(t: PixelTarget, m: Map<u32, u8>, y: int, x0: int, x1: int)
    requires
        t.span_ok(m.dom(), y, x0, x1),
    ensures
        t.paint_span(m, y, x0, x1).dom() == m.dom(),
    decreases x1 - x0 + 1,
{
    if x1 >= x0 {
        lemma_paint_span_dom(t, m, y, x0, x1 - 1);
        assert(t.pixel_ok(m.dom(), y, x1));
        lemma_put_dom(t, t.paint_span(m, y, x0, x1 - 1), y, x1);
    }
}

pub proof fn lemma_paint_rows_dom(
    t: PixelTarget,
    m: Map<u32, u8>,
    y0: int,
    y1: int,
    x0: int,
    x1: int,
)
    requires
        t.rows_ok(m.dom(), y0, y1, x0, x1),
    ensures
        t.paint_rows(m, y0, y1, x0, x1).dom() == m.dom(),
    decreases y1 - y0 + 1,
{
    if y1 >= y0 {
        assert forall|y: int| y0 <= y <= y1 - 1 implies #[trigger] t.row_ok(m.dom(), y, x0, x1) by {
            assert(t.row_ok(m.dom(), y, x0, x1));
        }
        lemma_paint_rows_dom(t, m, y0, y1 - 1, x0, x1);
        assert(t.row_ok(m.dom(), y1, x0, x1));
        lemma_paint_span_dom(t, t.paint_rows(m, y0, y1 - 1, x0, x1), y1, x0, x1);
    }
}

/// Computes the start address of row y; ensures the result is `t.row_addr(y)`.
pub(crate) fn row_address(base: u32, stride: u32, y: u32, bpp: u32) -> (r: u32)
    requires
        1 <= bpp,
        base + y * stride * bpp <= u32::MAX,
    ensures
        r == base + y * stride * bpp,
{
    assert(0 <= y * stride * bpp) by (nonlinear_arith)
        requires
            0 <= y,
            0 <= stride,
            0 <= bpp,
    ;
    assert(y * stride <= u32::MAX) by (nonlinear_arith)
        requires
            0 <= y,
            0 <= stride,
            1 <= bpp,
            base + y * stride * bpp <= u32::MAX,
            0 <= base,
    ;
    base + y * stride * bpp
}


proof fn lemma_parity_low16(x: i32, v: u32)
    by (bit_vector)
    ensures
        ((x & 1) == 0) == (x % 2 == 0),
        v as u16 == v % 0x10000,
{
}

/// What fill mode writes: at 16bpp the fill color holds two pixels (even x takes bits 31..=16,
/// odd x bits 15..=0); at 32bpp every pixel gets the whole fill color.
pub open spec fn fill_target(s: State) -> PixelTarget {
    PixelTarget {
        base: s.spec_color_image_addr(),
        stride: (s.spec_color_image_width() + 1) as u32,
        size: s.spec_color_image_size(),
        even: if s.spec_color_image_size() == 2 {
            s.fill_color >> 16u32
        } else {
            s.fill_color
        },
        odd: s.fill_color,
    }
}

/// Whether a target writes anything: only 16bpp and 32bpp framebuffers are implemented.
pub open spec fn writes_pixels(t: PixelTarget) -> bool {
    t.size == 2 || t.size == 3
}

/// Stores pixel (x, y) of the target: the exec counterpart of `PixelTarget::put`.
pub(crate) fn put_pixel<R: Rdram>(mem: &mut R, row: u32, x: i32, size: u32, even: u32, odd: u32, Ghost(
    t,
): Ghost<PixelTarget>, Ghost(y): Ghost<int>)
    requires
        t.size == size && t.even == even && t.odd == odd,
        size == 2 || size == 3,
        row == t.row_addr(y),
        t.pixel_ok(old(mem).bytes().dom(), y, x as int),
    ensures
        final(mem).bytes() == t.put(old(mem).bytes(), y, x as int),
        final(mem).bytes().dom() == old(mem).bytes().dom(),
        final(mem).hidden() == old(mem).hidden(),
        forall|a: u32| #[trigger] final(mem).hidden_index(a) == old(mem).hidden_index(a),
{
    let ghost m = mem.bytes();
    let ghost a = t.pixel_addr(y, x as int);
    proof {
        lemma_put_dom(t, m, y, x as int);
    }
    if size == 2 {
        let value = if x & 1 == 0 {
            even
        } else {
            odd
        };
        proof {
            lemma_parity_low16(x, value);
            assert(m.dom().contains((a + 0) as u32));
            assert(m.dom().contains((a + 1) as u32));
        }
        mem.write_u16(row + (x as u32) * 2, value as u16);
    } else {
        proof {
            assert(m.dom().contains((a + 0) as u32));
            assert(m.dom().contains((a + 1) as u32));
            assert(m.dom().contains((a + 2) as u32));
            assert(m.dom().contains((a + 3) as u32));
        }
        mem.write_u32(row + (x as u32) * 4, even);
    }
}

/// Stores the pixels x0..=x1 of row y, in order.
pub(crate) fn put_span<R: Rdram>(mem: &mut R, row: u32, x0: i32, x1: i32, size: u32, even: u32, odd: u32, Ghost(
    t,
): Ghost<PixelTarget>, Ghost(y): Ghost<int>)
    requires
        t.size == size && t.even == even && t.odd == odd,
        size == 2 || size == 3,
        row == t.row_addr(y),
        x1 < i32::MAX,
        t.span_ok(old(mem).bytes().dom(), y, x0 as int, x1 as int),
    ensures
        final(mem).bytes() == t.paint_span(old(mem).bytes(), y, x0 as int, x1 as int),
        final(mem).bytes().dom() == old(mem).bytes().dom(),
        final(mem).hidden() == old(mem).hidden(),
        forall|a: u32| #[trigger] final(mem).hidden_index(a) == old(mem).hidden_index(a),
{
    let ghost m0 = mem.bytes();
    let ghost h0 = mem.hidden();
    let mut x = x0;
    while x <= x1
        invariant
            t.size == size && t.even == even && t.odd == odd,
            size == 2 || size == 3,
            row == t.row_addr(y),
            x1 < i32::MAX,
            t.span_ok(m0.dom(), y, x0 as int, x1 as int),
            x0 <= x,
            x <= x1 + 1 || x == x0,
            mem.bytes() == t.paint_span(m0, y, x0 as int, x - 1),
            mem.bytes().dom() == m0.dom(),
            mem.hidden() == h0,
            forall|a: u32| #[trigger] mem.hidden_index(a) == old(mem).hidden_index(a),
        decreases x1 + 1 - x,
    {
        assert(t.pixel_ok(m0.dom(), y, x as int));
        put_pixel(mem, row, x, size, even, odd, Ghost(t), Ghost(y));
        assert(t.paint_span(m0, y, x0 as int, x as int) == t.put(
            t.paint_span(m0, y, x0 as int, x - 1),
            y,
            x as int,
        ));
        x += 1;
    }
}

/// Fills the pixels x0..=x1 of row y with the fill color.
fn fill_span<R: Rdram>(state: &State, mem: &mut R, y: i32, x0: i32, x1: i32)
    requires
        0 <= y,
        x1 < i32::MAX,
        writes_pixels(fill_target(*state)) ==> fill_target(*state).row_fits(y as int)
            && fill_target(*state).span_ok(old(mem).bytes().dom(), y as int, x0 as int, x1 as int),
    ensures
        final(mem).bytes() == if writes_pixels(fill_target(*state)) {
            fill_target(*state).paint_span(old(mem).bytes(), y as int, x0 as int, x1 as int)
        } else {
            old(mem).bytes()
        },
        final(mem).hidden() == old(mem).hidden(),
        forall|a: u32| #[trigger] final(mem).hidden_index(a) == old(mem).hidden_index(a),
{
    let base = state.color_image_addr();
    let stride_pixels = state.color_image_width() + 1;
    let fill = state.fill_color;
    let ghost t = fill_target(*state);

    match state.color_image_size() {
        2 => {
            // 16bpp: two packed pixels in the fill color, selected by x parity.
            let row = row_address(base, stride_pixels, y as u32, 2);
            put_span(mem, row, x0, x1, 2, fill >> 16u32, fill, Ghost(t), Ghost(y as int));
        },
        3 => {
            // 32bpp: every pixel gets the full fill color.
            let row = row_address(base, stride_pixels, y as u32, 4);
            put_span(mem, row, x0, x1, 3, fill, fill, Ghost(t), Ghost(y as int));
        },
        // 4bpp/8bpp framebuffers: not implemented.
        _ => {},
    }
}


pub open spec fn max(a: int, b: int) -> int {
    if a >= b {
        a
    } else {
        b
    }
}

pub open spec fn min(a: int, b: int) -> int {
    if a <= b {
        a
    } else {
        b
    }
}

/// Rectangle corners of a FillRectangle word as raw 10.2 fixed point: (xl, yl, xh, yh), where
/// xl/yl is the lower-right corner and xh/yh the upper-left.
pub open spec fn rect_corners(word: u64) -> (int, int, int, int) {
    (
        field12(word, 44) as int,
        field12(word, 32) as int,
        field12(word, 12) as int,
        field12(word, 0) as int,
    )
}

/// Inclusive pixel bounds (x0, x1, y0, y1) that FillRectangle paints in fill mode: xl is
/// clamped to the scissor right at subpixel precision and the pixel holding it is painted; the
/// scissor bottom is subpixel-exclusive.
pub open spec fn fill_rect_bounds(s: State, word: u64) -> (int, int, int, int) {
    let (xl, yl, xh, yh) = rect_corners(word);
    let (sc_left, sc_top, sc_right, sc_bottom) = s.spec_scissor_bounds();
    (
        max(xh / 4, sc_left as int / 4),
        min(xl, sc_right as int) / 4,
        max(yh / 4, sc_top as int / 4),
        min(yl, sc_bottom - 1) / 4,
    )
}

/// FillRectangle in fill mode stores only to accessible memory and computes its addresses
/// without overflow.
pub open spec fn fill_rect_ok(s: State, dom: Set<u32>, word: u64) -> bool {
    let (x0, x1, y0, y1) = fill_rect_bounds(s, word);
    writes_pixels(fill_target(s)) ==> fill_target(s).rows_ok(dom, y0, y1, x0, x1)
}

/// Memory after FillRectangle in fill mode: the fill color painted over the bounds, row by row.
pub open spec fn fill_rect_mem(s: State, m: Map<u32, u8>, word: u64) -> Map<u32, u8> {
    let (x0, x1, y0, y1) = fill_rect_bounds(s, word);
    if writes_pixels(fill_target(s)) {
        fill_target(s).paint_rows(m, y0, y1, x0, x1)
    } else {
        m
    }
}

/// FillRectangle in fill cycle type.
///
/// Coordinates are 10.2 fixed point; xl/yl is the lower-right corner, xh/yh the upper-left.
/// - Horizontal: xl is clamped to the scissor right at subpixel precision, then the pixel
///   containing that subpixel is still painted. So an unclipped rectangle includes its xl pixel
///   (the classic fill-mode extra pixel), and a scissor-clipped one paints one pixel AT the
///   scissor right - one past what the scissor nominally allows, wrapping into the next
///   framebuffer row.
/// - Vertical: the yl pixel is included, but the scissor bottom is subpixel-exclusive - no row at
///   or past it is painted. The clamp operates on subpixels, not pixel indices.
/// - 16bpp: the 32-bit fill color holds two pixels; even x takes bits 31..=16, odd x bits 15..=0.
/// - The hidden bits are left untouched.
pub fn fill_rectangle<R: Rdram>(state: &State, mem: &mut R, word: u64)
    requires
        fill_rect_ok(*state, old(mem).bytes().dom(), word),
    ensures
        final(mem).bytes() == fill_rect_mem(*state, old(mem).bytes(), word),
        final(mem).hidden() == old(mem).hidden(),
        forall|a: u32| #[trigger] final(mem).hidden_index(a) == old(mem).hidden_index(a),
{
    proof {
        lemma_word_fields(word);
    }
    let xl = ((word >> 44u64) & 0xFFFu64) as i32;
    let yl = ((word >> 32u64) & 0xFFFu64) as i32;
    let xh = ((word >> 12u64) & 0xFFFu64) as i32;
    let yh = (word & 0xFFFu64) as i32;

    let (sc_left, sc_top, sc_right, sc_bottom) = state.scissor_bounds();

    // Pixel bounds, inclusive.
    let x0 = (xh / 4).max((sc_left / 4) as i32);
    let x1 = xl.min(sc_right as i32) / 4;
    let y0 = (yh / 4).max((sc_top / 4) as i32);
    let y1_subpixel = yl.min(sc_bottom as i32 - 1);
    let y1 = y1_subpixel >> 2u32;
    proof {
        crate::triangle::lemma_i32_bits(y1_subpixel, 0);
    }

    let ghost t = fill_target(*state);
    let ghost m0 = mem.bytes();
    let ghost h0 = mem.hidden();
    let mut y = y0;
    while y <= y1
        invariant
            fill_rect_bounds(*state, word) == (x0 as int, x1 as int, y0 as int, y1 as int),
            t == fill_target(*state),
            writes_pixels(t) ==> t.rows_ok(m0.dom(), y0 as int, y1 as int, x0 as int, x1 as int),
            0 <= y0 <= y,
            y <= y1 + 1 || y == y0,
            y1 < 1024,
            x1 < 1024,
            mem.bytes() == if writes_pixels(t) {
                t.paint_rows(m0, y0 as int, y - 1, x0 as int, x1 as int)
            } else {
                m0
            },
            mem.bytes().dom() == m0.dom(),
            mem.hidden() == h0,
            forall|a: u32| #[trigger] mem.hidden_index(a) == old(mem).hidden_index(a),
        decreases y1 + 1 - y,
    {
        assert(writes_pixels(t) ==> t.row_ok(m0.dom(), y as int, x0 as int, x1 as int));
        let ghost before = mem.bytes();
        fill_span(state, mem, y, x0, x1);
        proof {
            if writes_pixels(t) {
                lemma_paint_span_dom(t, before, y as int, x0 as int, x1 as int);
            }
        }
        y += 1;
    }
}


/// Blender cycle 0 is P = blend color, A = combined alpha, M = memory color, B = zero (output =
/// blend color) and coverage mode is zap (coverage forced to full): the only 1-cycle pipeline
/// configuration implemented.
pub open spec fn blend_color_zap(s: State) -> bool {
    s.spec_blender_0() == (2u32, 0u32, 1u32, 3u32) && s.spec_coverage_mode() == 2
}

/// The blend color as a 16bpp pixel: r/g/b truncated to 5 bits, alpha (full coverage) set.
pub open spec fn blend16(blend: u32) -> u32 {
    let (r, g, b) = (blend >> 24u32, (blend >> 16u32) & 0xFFu32, (blend >> 8u32) & 0xFFu32);
    ((r >> 3u32) << 11u32) | ((g >> 3u32) << 6u32) | ((b >> 3u32) << 1u32) | 1u32
}

/// The blend color as a 32bpp pixel with the given alpha byte.
pub open spec fn blend32(blend: u32, alpha: u32) -> u32 {
    let (r, g, b) = (blend >> 24u32, (blend >> 16u32) & 0xFFu32, (blend >> 8u32) & 0xFFu32);
    (r << 24u32) | (g << 16u32) | (b << 8u32) | alpha
}

/// What the 1-cycle blend-color pipeline writes: the blend color, at 32bpp with alpha byte 0xE0
/// (coverage 7 << 5).
pub open spec fn blend_target(s: State) -> PixelTarget {
    PixelTarget {
        base: s.spec_color_image_addr(),
        stride: (s.spec_color_image_width() + 1) as u32,
        size: s.spec_color_image_size(),
        even: if s.spec_color_image_size() == 2 {
            blend16(s.blend_color)
        } else {
            blend32(s.blend_color, 0xE0)
        },
        odd: blend16(s.blend_color),
    }
}

/// Covered subpixel ranges [sx0, sx1) x [sy0, sy1) of a 1-cycle FillRectangle, clipped by the
/// scissor on all four edges.
pub open spec fn one_cycle_rect_subpixels(s: State, word: u64) -> (int, int, int, int) {
    let (xl, yl, xh, yh) = rect_corners(word);
    let (sc_left, sc_top, sc_right, sc_bottom) = s.spec_scissor_bounds();
    (max(xh, sc_left as int), min(xl, sc_right as int), max(yh, sc_top as int), min(yl, sc_bottom as int))
}

/// Inclusive pixel bounds (x0, x1, y0, y1): the pixels whose top-left subpixel is covered.
pub open spec fn one_cycle_rect_bounds(s: State, word: u64) -> (int, int, int, int) {
    let (sx0, sx1, sy0, sy1) = one_cycle_rect_subpixels(s, word);
    ((sx0 + 3) / 4, (sx1 - 1) / 4, (sy0 + 3) / 4, (sy1 - 1) / 4)
}

/// No pixel is painted: the clipped subpixel range, or the pixel range, is empty.
pub open spec fn one_cycle_rect_empty(s: State, word: u64) -> bool {
    let (sx0, sx1, sy0, sy1) = one_cycle_rect_subpixels(s, word);
    let (x0, x1, y0, y1) = one_cycle_rect_bounds(s, word);
    sx1 <= sx0 || sy1 <= sy0 || x1 < x0 || y1 < y0
}

/// What `one_cycle_rectangle` reports: whether the command was handled.
pub open spec fn one_cycle_rect_handled(s: State, word: u64) -> bool {
    blend_color_zap(s) && (one_cycle_rect_empty(s, word) || writes_pixels(blend_target(s)))
}

/// Whether `one_cycle_rectangle` stores pixels.
pub open spec fn one_cycle_rect_paints(s: State, word: u64) -> bool {
    blend_color_zap(s) && !one_cycle_rect_empty(s, word) && writes_pixels(blend_target(s))
}

/// Blender cycle 0 outputs the blend color: (P, A, M, B) = (blend color, combined alpha, memory
/// color, zero).
pub(crate) fn blender_outputs_blend_color(state: &State) -> (r: bool)
    ensures
        r == (state.spec_blender_0() == (2u32, 0u32, 1u32, 3u32)),
{
    let (m1a, m1b, m2a, m2b) = state.blender_0();
    m1a == 2 && m1b == 0 && m2a == 1 && m2b == 3
}

/// A 1-cycle FillRectangle stores only to accessible memory and computes its addresses without
/// overflow.
pub open spec fn one_cycle_rect_ok(s: State, dom: Set<u32>, word: u64) -> bool {
    let (x0, x1, y0, y1) = one_cycle_rect_bounds(s, word);
    one_cycle_rect_paints(s, word) ==> blend_target(s).rows_ok(dom, y0, y1, x0, x1)
}

/// Memory after a 1-cycle FillRectangle: the blend color over the bounds, row by row.
pub open spec fn one_cycle_rect_mem(s: State, m: Map<u32, u8>, word: u64) -> Map<u32, u8> {
    let (x0, x1, y0, y1) = one_cycle_rect_bounds(s, word);
    if one_cycle_rect_paints(s, word) {
        blend_target(s).paint_rows(m, y0, y1, x0, x1)
    } else {
        m
    }
}

/// Stores the span x0..=x1 on the rows y0..=y1, in row-major order.
fn put_rows<R: Rdram>(
    mem: &mut R,
    base: u32,
    stride_pixels: u32,
    y0: i32,
    y1: i32,
    x0: i32,
    x1: i32,
    size: u32,
    even: u32,
    odd: u32,
    Ghost(t): Ghost<PixelTarget>,
)
    requires
        t.base == base && t.stride == stride_pixels && t.size == size && t.even == even && t.odd
            == odd,
        size == 2 || size == 3,
        0 <= y0,
        y1 < i32::MAX,
        x1 < i32::MAX,
        t.rows_ok(old(mem).bytes().dom(), y0 as int, y1 as int, x0 as int, x1 as int),
    ensures
        final(mem).bytes() == t.paint_rows(
            old(mem).bytes(),
            y0 as int,
            y1 as int,
            x0 as int,
            x1 as int,
        ),
        final(mem).bytes().dom() == old(mem).bytes().dom(),
        final(mem).hidden() == old(mem).hidden(),
        forall|a: u32| #[trigger] final(mem).hidden_index(a) == old(mem).hidden_index(a),
{
    let ghost m0 = mem.bytes();
    let ghost h0 = mem.hidden();
    let bpp: u32 = if size == 2 {
        2
    } else {
        4
    };
    let mut y = y0;
    while y <= y1
        invariant
            t.base == base && t.stride == stride_pixels && t.size == size && t.even == even
                && t.odd == odd,
            size == 2 || size == 3,
            bpp == t.bpp(),
            0 <= y0 <= y,
            y <= y1 + 1 || y == y0,
            y1 < i32::MAX,
            x1 < i32::MAX,
            t.rows_ok(m0.dom(), y0 as int, y1 as int, x0 as int, x1 as int),
            mem.bytes() == t.paint_rows(m0, y0 as int, y - 1, x0 as int, x1 as int),
            mem.bytes().dom() == m0.dom(),
            mem.hidden() == h0,
            forall|a: u32| #[trigger] mem.hidden_index(a) == old(mem).hidden_index(a),
        decreases y1 + 1 - y,
    {
        assert(t.row_ok(m0.dom(), y as int, x0 as int, x1 as int));
        let row = row_address(base, stride_pixels, y as u32, bpp);
        put_span(mem, row, x0, x1, size, even, odd, Ghost(t), Ghost(y as int));
        y += 1;
    }
}

/// FillRectangle in 1-cycle mode.
///
/// Only the pipeline configuration of `blend_color_zap` is implemented (output = blend color,
/// coverage forced to full); anything else returns false so the caller can count it as
/// unhandled.
/// - A pixel (row) is painted iff its top-left subpixel lies inside [xh, xl) x [yh, yl):
///   left/top round UP (`(edge + 3) >> 2`, so a fractional xh/yh skips its partially covered
///   pixel), right/bottom still paint their containing pixel (`(edge - 1) >> 2`). There is no
///   fill-mode extra pixel.
/// - The scissor clips the subpixel ranges on all four edges.
/// - Blend color word is r, g, b, a bytes high to low. 16bpp writes r/g/b truncated to 5 bit and
///   the alpha bit set (full coverage); 32bpp writes r, g, b and 0xE0 (coverage 7 << 5) as the
///   alpha byte.
/// - Hidden bits untouched.
pub fn one_cycle_rectangle<R: Rdram>(state: &State, mem: &mut R, word: u64) -> (handled: bool)
    requires
        one_cycle_rect_ok(*state, old(mem).bytes().dom(), word),
    ensures
        handled == one_cycle_rect_handled(*state, word),
        final(mem).bytes() == one_cycle_rect_mem(*state, old(mem).bytes(), word),
        final(mem).hidden() == old(mem).hidden(),
        forall|a: u32| #[trigger] final(mem).hidden_index(a) == old(mem).hidden_index(a),
{
    if !blender_outputs_blend_color(state) || state.coverage_mode() != 2 {
        return false;
    }
    proof {
        lemma_word_fields(word);
    }
    let xl = ((word >> 44u64) & 0xFFFu64) as i32;
    let yl = ((word >> 32u64) & 0xFFFu64) as i32;
    let xh = ((word >> 12u64) & 0xFFFu64) as i32;
    let yh = (word & 0xFFFu64) as i32;

    let (sc_left, sc_top, sc_right, sc_bottom) = state.scissor_bounds();

    // Covered subpixel ranges, exclusive on the right/bottom, clipped by the scissor
    let sx0 = xh.max(sc_left as i32);
    let sx1 = xl.min(sc_right as i32);
    let sy0 = yh.max(sc_top as i32);
    let sy1 = yl.min(sc_bottom as i32);
    if sx1 <= sx0 || sy1 <= sy0 {
        return true;
    }

    // Pixels whose top-left subpixel is covered
    let x0 = (sx0 + 3) / 4;
    let x1 = (sx1 - 1) / 4;
    let y0 = (sy0 + 3) / 4;
    let y1 = (sy1 - 1) / 4;
    if x1 < x0 || y1 < y0 {
        return true;
    }

    let blend = state.blend_color;
    let (r, g, b) = (blend >> 24u32, (blend >> 16u32) & 0xFFu32, (blend >> 8u32) & 0xFFu32);

    let base = state.color_image_addr();
    let stride_pixels = state.color_image_width() + 1;
    let ghost t = blend_target(*state);
    match state.color_image_size() {
        2 => {
            let value = ((r >> 3u32) << 11u32) | ((g >> 3u32) << 6u32) | ((b >> 3u32) << 1u32) | 1u32;
            put_rows(mem, base, stride_pixels, y0, y1, x0, x1, 2, value, value, Ghost(t));
        },
        3 => {
            let value = (r << 24u32) | (g << 16u32) | (b << 8u32) | 0xE0u32;
            let value16 = ((r >> 3u32) << 11u32) | ((g >> 3u32) << 6u32) | ((b >> 3u32) << 1u32) | 1u32;
            put_rows(mem, base, stride_pixels, y0, y1, x0, x1, 3, value, value16, Ghost(t));
        },
        _ => return false,
    }
    true
}


/// Pixel (x, y) holds the target's value for it.
pub open spec fn pixel_value_ok(t: PixelTarget, m: Map<u32, u8>, y: int, x: int) -> bool {
    if t.size == 2 {
        load16(m, t.pixel_addr(y, x) as u32) == t.value16(x)
    } else {
        load32(m, t.pixel_addr(y, x) as u32) == t.even
    }
}

/// Every pixel of the target gets the same value (16bpp: the even and odd halves agree).
pub open spec fn uniform(t: PixelTarget) -> bool {
    t.size == 2 ==> t.even % 0x10000 == t.odd % 0x10000
}

/// The blend color target gives every pixel the same value.
pub proof fn blend_target_uniform(s: State)
    ensures
        uniform(blend_target(s)),
{
}

/// Two pixels of a target either share their address or do not overlap: pixel addresses are
/// whole multiples of the pixel size apart.
pub proof fn lemma_pixel_alias(t: PixelTarget, y: int, x: int, y2: int, x2: int)
    ensures
        t.pixel_addr(y, x) == t.pixel_addr(y2, x2) || t.pixel_addr(y, x) + t.bpp() <= t.pixel_addr(
            y2,
            x2,
        ) || t.pixel_addr(y2, x2) + t.bpp() <= t.pixel_addr(y, x),
        t.pixel_addr(y, x) == t.pixel_addr(y2, x2) ==> t.value16(x) == t.value16(x2) || !uniform(
            t,
        ) || t.size != 2,
{
    let b = t.bpp();
    let st = t.stride as int;
    let d = (y * st + x) - (y2 * st + x2);
    assert(t.pixel_addr(y, x) - t.pixel_addr(y2, x2) == d * b) by (nonlinear_arith)
        requires
            t.pixel_addr(y, x) == t.base + y * st * b + x * b,
            t.pixel_addr(y2, x2) == t.base + y2 * st * b + x2 * b,
            d == (y * st + x) - (y2 * st + x2),
    ;
    if d >= 1 {
        assert(d * b >= b) by (nonlinear_arith)
            requires
                d >= 1,
                b >= 2,
        ;
    } else if d <= -1 {
        assert(d * b <= -b) by (nonlinear_arith)
            requires
                d <= -1,
                b >= 2,
        ;
    }
}

/// Storing pixel (x, y) makes it hold its value, and keeps the value of every other pixel of
/// a uniform target.
pub proof fn lemma_put_values(t: PixelTarget, m: Map<u32, u8>, y: int, x: int, y2: int, x2: int)
    requires
        uniform(t),
        t.pixel_ok(m.dom(), y, x),
        t.pixel_ok(m.dom(), y2, x2),
    ensures
        pixel_value_ok(t, t.put(m, y, x), y, x),
        pixel_value_ok(t, m, y2, x2) ==> pixel_value_ok(t, t.put(m, y, x), y2, x2),
{
    let a = t.pixel_addr(y, x) as u32;
    let b = t.pixel_addr(y2, x2) as u32;
    let m2 = t.put(m, y, x);
    lemma_pixel_alias(t, y, x, y2, x2);
    if t.size == 2 {
        load16_of_store16(m, a, t.value16(x));
        if a != b {
            store16_frame(m, a, t.value16(x), b);
            store16_frame(m, a, t.value16(x), (b + 1) as u32);
        }
    } else {
        load32_of_store32(m, a, t.even);
        if a != b {
            store32_frame(m, a, t.even, b);
            store32_frame(m, a, t.even, (b + 1) as u32);
            store32_frame(m, a, t.even, (b + 2) as u32);
            store32_frame(m, a, t.even, (b + 3) as u32);
        }
    }
}

/// Painting a span makes its pixels hold their value, and keeps the value of every other pixel
/// of a uniform target.
pub proof fn lemma_paint_span_values(
    t: PixelTarget,
    m: Map<u32, u8>,
    y: int,
    x0: int,
    x1: int,
    y2: int,
    x2: int,
)
    requires
        uniform(t),
        t.span_ok(m.dom(), y, x0, x1),
        t.pixel_ok(m.dom(), y2, x2),
    ensures
        pixel_value_ok(t, m, y2, x2) ==> pixel_value_ok(t, t.paint_span(m, y, x0, x1), y2, x2),
        y2 == y && x0 <= x2 <= x1 ==> pixel_value_ok(t, t.paint_span(m, y, x0, x1), y2, x2),
    decreases x1 - x0 + 1,
{
    if x1 >= x0 {
        let m1 = t.paint_span(m, y, x0, x1 - 1);
        lemma_paint_span_values(t, m, y, x0, x1 - 1, y2, x2);
        lemma_paint_span_dom(t, m, y, x0, x1 - 1);
        assert(t.pixel_ok(m.dom(), y, x1));
        lemma_put_values(t, m1, y, x1, y2, x2);
    }
}

/// Address `a` is not among the bytes of pixel (x, y).
pub open spec fn outside_pixel(t: PixelTarget, a: u32, y: int, x: int) -> bool {
    !(t.pixel_addr(y, x) <= a < t.pixel_addr(y, x) + t.bpp())
}

/// A span leaves every byte outside its pixels unchanged.
pub proof fn paint_span_frame(t: PixelTarget, m: Map<u32, u8>, y: int, x0: int, x1: int, a: u32)
    requires
        t.span_ok(m.dom(), y, x0, x1),
        forall|x: int| x0 <= x <= x1 ==> #[trigger] outside_pixel(t, a, y, x),
    ensures
        t.paint_span(m, y, x0, x1)[a] == m[a],
    decreases x1 - x0 + 1,
{
    if x1 >= x0 {
        paint_span_frame(t, m, y, x0, x1 - 1, a);
        assert(outside_pixel(t, a, y, x1));
        assert(t.pixel_ok(m.dom(), y, x1));
    }
}

/// Painting a rectangle of pixels leaves every byte outside its pixels unchanged: a primitive
/// writes nothing but its own pixels.
pub proof fn paint_rows_frame(
    t: PixelTarget,
    m: Map<u32, u8>,
    y0: int,
    y1: int,
    x0: int,
    x1: int,
    a: u32,
)
    requires
        t.rows_ok(m.dom(), y0, y1, x0, x1),
        forall|y: int, x: int| y0 <= y <= y1 && x0 <= x <= x1 ==> #[trigger] outside_pixel(t, a, y, x),
    ensures
        t.paint_rows(m, y0, y1, x0, x1)[a] == m[a],
    decreases y1 - y0 + 1,
{
    if y1 >= y0 {
        assert forall|y: int| y0 <= y <= y1 - 1 implies #[trigger] t.row_ok(m.dom(), y, x0, x1) by {
            assert(t.row_ok(m.dom(), y, x0, x1));
        }
        paint_rows_frame(t, m, y0, y1 - 1, x0, x1, a);
        lemma_paint_rows_dom(t, m, y0, y1 - 1, x0, x1);
        assert(t.row_ok(m.dom(), y1, x0, x1));
        assert forall|x: int| x0 <= x <= x1 implies #[trigger] outside_pixel(t, a, y1, x) by {
            assert(outside_pixel(t, a, y1, x));
        }
        paint_span_frame(t, t.paint_rows(m, y0, y1 - 1, x0, x1), y1, x0, x1, a);
    }
}

/// Painting rows makes their pixels hold their value, and keeps the value of every other pixel
/// of a uniform target.
pub proof fn lemma_paint_rows_values(
    t: PixelTarget,
    m: Map<u32, u8>,
    y0: int,
    y1: int,
    x0: int,
    x1: int,
    y2: int,
    x2: int,
)
    requires
        uniform(t),
        t.rows_ok(m.dom(), y0, y1, x0, x1),
        t.pixel_ok(m.dom(), y2, x2),
    ensures
        pixel_value_ok(t, m, y2, x2) ==> pixel_value_ok(t, t.paint_rows(m, y0, y1, x0, x1), y2, x2),
        y0 <= y2 <= y1 && x0 <= x2 <= x1 ==> pixel_value_ok(t, t.paint_rows(m, y0, y1, x0, x1), y2, x2),
    decreases y1 - y0 + 1,
{
    if y1 >= y0 {
        assert forall|y: int| y0 <= y <= y1 - 1 implies #[trigger] t.row_ok(m.dom(), y, x0, x1) by {
            assert(t.row_ok(m.dom(), y, x0, x1));
        }
        lemma_paint_rows_values(t, m, y0, y1 - 1, x0, x1, y2, x2);
        lemma_paint_rows_dom(t, m, y0, y1 - 1, x0, x1);
        assert(t.row_ok(m.dom(), y1, x0, x1));
        lemma_paint_span_values(t, t.paint_rows(m, y0, y1 - 1, x0, x1), y1, x0, x1, y2, x2);
    }
}

/// Pixel (x, y) is covered by a 1-cycle FillRectangle: its top-left subpixel (4x, 4y) lies in
/// the rectangle [xh, xl) x [yh, yl) of the command word and in the scissor
/// [left, right) x [top, bottom) of the SetScissor word.
pub open spec fn one_cycle_rect_covers(s: State, word: u64, x: int, y: int) -> bool {
    let (xl, yl, xh, yh) = (
        ((word >> 44u64) & 0xFFFu64) as int,
        ((word >> 32u64) & 0xFFFu64) as int,
        ((word >> 12u64) & 0xFFFu64) as int,
        (word & 0xFFFu64) as int,
    );
    let (left, top, right, bottom) = (
        ((s.scissor >> 44u64) & 0xFFFu64) as int,
        ((s.scissor >> 32u64) & 0xFFFu64) as int,
        ((s.scissor >> 12u64) & 0xFFFu64) as int,
        (s.scissor & 0xFFFu64) as int,
    );
    &&& xh <= 4 * x < xl
    &&& yh <= 4 * y < yl
    &&& left <= 4 * x < right
    &&& top <= 4 * y < bottom
}

/// A handled 1-cycle FillRectangle paints every covered pixel with the blend color.
pub proof fn one_cycle_rect_paints_covered(s: State, m: Map<u32, u8>, word: u64, x: int, y: int)
    requires
        blend_color_zap(s),
        writes_pixels(blend_target(s)),
        one_cycle_rect_ok(s, m.dom(), word),
        one_cycle_rect_covers(s, word, x, y),
    ensures
        pixel_value_ok(blend_target(s), one_cycle_rect_mem(s, m, word), y, x),
{
    lemma_word_fields(word);
    lemma_word_fields(s.scissor);
    let (x0, x1, y0, y1) = one_cycle_rect_bounds(s, word);
    assert(x0 <= x <= x1 && y0 <= y <= y1);
    assert(one_cycle_rect_paints(s, word));
    let t = blend_target(s);
    assert(t.row_ok(m.dom(), y, x0, x1));
    assert(t.pixel_ok(m.dom(), y, x));
    lemma_paint_rows_values(t, m, y0, y1, x0, x1, y, x);
}

/// A 1-cycle FillRectangle writes nothing outside its covered pixels: in particular nothing
/// outside the scissor.
pub proof fn one_cycle_rect_writes_only_covered(s: State, m: Map<u32, u8>, word: u64, a: u32)
    requires
        one_cycle_rect_ok(s, m.dom(), word),
        forall|x: int, y: int|
            one_cycle_rect_covers(s, word, x, y) ==> #[trigger] outside_pixel(blend_target(s), a, y, x),
    ensures
        one_cycle_rect_mem(s, m, word)[a] == m[a],
{
    lemma_word_fields(word);
    lemma_word_fields(s.scissor);
    let (x0, x1, y0, y1) = one_cycle_rect_bounds(s, word);
    if one_cycle_rect_paints(s, word) {
        assert forall|y: int, x: int| y0 <= y <= y1 && x0 <= x <= x1 implies #[trigger] outside_pixel(
            blend_target(s),
            a,
            y,
            x,
        ) by {
            assert(one_cycle_rect_covers(s, word, x, y));
        }
        paint_rows_frame(blend_target(s), m, y0, y1, x0, x1, a);
    }
}

/// The blend color as pixels: a 16bpp pixel carries the top 5 bits of r, g and b (bits 31..=27,
/// 23..=19 and 15..=11 of the blend color word) at 15..=11, 10..=6 and 5..=1 with the coverage
/// bit 0 set; a 32bpp pixel carries r, g, b as bytes 3..=1 and the alpha as byte 0.
pub proof fn blend_pixel_fields(blend: u32, alpha: u32)
    ensures
        (blend16(blend) >> 11u32) & 0x1F == blend >> 27u32,
        (blend16(blend) >> 6u32) & 0x1F == (blend >> 19u32) & 0x1F,
        (blend16(blend) >> 1u32) & 0x1F == (blend >> 11u32) & 0x1F,
        blend16(blend) & 1 == 1,
        blend16(blend) < 0x10000,
        alpha < 256 ==> blend32(blend, alpha) >> 8u32 == blend >> 8u32,
        alpha < 256 ==> blend32(blend, alpha) & 0xFF == alpha,
{
    assert({
        let (r, g, b) = (blend >> 24u32, (blend >> 16u32) & 0xFFu32, (blend >> 8u32) & 0xFFu32);
        let v = ((r >> 3u32) << 11u32) | ((g >> 3u32) << 6u32) | ((b >> 3u32) << 1u32) | 1u32;
        let w = (r << 24u32) | (g << 16u32) | (b << 8u32) | alpha;
        &&& (v >> 11u32) & 0x1F == blend >> 27u32
        &&& (v >> 6u32) & 0x1F == (blend >> 19u32) & 0x1F
        &&& (v >> 1u32) & 0x1F == (blend >> 11u32) & 0x1F
        &&& v & 1 == 1
        &&& v < 0x10000
        &&& (alpha < 256 ==> w >> 8u32 == blend >> 8u32 && w & 0xFF == alpha)
    }) by (bit_vector);
}

/// Which pixels FillRectangle paints in fill mode: x such that the pixel's subpixel columns
/// [4x, 4x + 3] reach the rectangle's left edge xh and the scissor left, and 4x is at most the
/// right edge xl and the scissor right (the classic extra pixel); y such that [4y, 4y + 3]
/// reaches yh and the scissor top, 4y is at most yl, and 4y lies above the scissor bottom.
pub proof fn fill_rect_pixel_rule(s: State, word: u64, x: int, y: int)
    ensures
        ({
            let (x0, x1, y0, y1) = fill_rect_bounds(s, word);
            let (xl, yl, xh, yh) = (
                ((word >> 44u64) & 0xFFFu64) as int,
                ((word >> 32u64) & 0xFFFu64) as int,
                ((word >> 12u64) & 0xFFFu64) as int,
                (word & 0xFFFu64) as int,
            );
            let (left, top, right, bottom) = (
                ((s.scissor >> 44u64) & 0xFFFu64) as int,
                ((s.scissor >> 32u64) & 0xFFFu64) as int,
                ((s.scissor >> 12u64) & 0xFFFu64) as int,
                (s.scissor & 0xFFFu64) as int,
            );
            &&& (x0 <= x <= x1) <==> (4 * x + 3 >= xh && 4 * x + 3 >= left && 4 * x <= xl && 4 * x
                <= right)
            &&& (y0 <= y <= y1) <==> (4 * y + 3 >= yh && 4 * y + 3 >= top && 4 * y <= yl && 4 * y
                < bottom)
        }),
{
    lemma_word_fields(word);
    lemma_word_fields(s.scissor);
}

/// The 1-cycle rectangle rule: a pixel is painted iff its top-left subpixel lies inside the
/// scissor-clipped subpixel rectangle [sx0, sx1) x [sy0, sy1).
pub proof fn one_cycle_rect_top_left_rule(s: State, word: u64, x: int, y: int)
    ensures
        ({
            let (x0, x1, y0, y1) = one_cycle_rect_bounds(s, word);
            let (sx0, sx1, sy0, sy1) = one_cycle_rect_subpixels(s, word);
            (x0 <= x <= x1 && y0 <= y <= y1) <==> (sx0 <= 4 * x < sx1 && sy0 <= 4 * y < sy1)
        }),
{
}

/// Fill mode's edges: the pixel holding the (scissor-clamped) right edge xl is painted, the
/// yl row is painted, and no painted row reaches the scissor bottom.
pub proof fn fill_rect_edges(s: State, word: u64)
    ensures
        ({
            let (x0, x1, y0, y1) = fill_rect_bounds(s, word);
            let (xl, yl, xh, yh) = rect_corners(word);
            let (sc_left, sc_top, sc_right, sc_bottom) = s.spec_scissor_bounds();
            &&& xl <= sc_right ==> x1 == xl / 4
            &&& xl > sc_right ==> x1 == sc_right / 4
            &&& yl < sc_bottom ==> y1 == yl / 4
            &&& 4 * y1 < sc_bottom
        }),
{
}

} // verus!
