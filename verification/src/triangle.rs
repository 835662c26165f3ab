//! Fill_Triangle (opcode 0x08) rasterization in 1-cycle mode.
//!
//! yl/ym/yh are 12.2 signed; xl/xm/xh and the per-scanline steps dl/dm/dh are 16.16 signed. The
//! major edge starts at xh and steps dh once per subpixel line from yh; the minor side steps
//! xm/dm until ym, then restarts at xl stepping dl until yl. `right_major` (bit 55) selects which
//! side is left/right. The x accumulators live in a <<2-shifted 16.16 domain (2 fraction bits
//! more, so the per-subpixel-line step keeps full precision).
//!
//! The memory effect is stated by an edge walker (`zap_walk`, `clamp_walk`) over the same state
//! the hardware keeps: the two edge positions, the subpixel line, and the section.
use vstd::prelude::*;
use crate::raster::{
    PixelTarget, blend_color_zap, blend_target, writes_pixels, max, min, row_address,
    lemma_paint_span_dom, put_span, outside_pixel, paint_span_frame, pixel_value_ok, uniform,
    lemma_paint_span_values, blend32, lemma_pixel_alias,
};
use crate::rdram::{Rdram, store32, store32_frame, load32, load32_of_store32};
use crate::state::{State, lemma_word_fields};

verus! {

/// Sign-extends the low 14 bits of `value`.
pub open spec fn spec_sign_extend_14(value: u32) -> int {
    let v = (value % 0x4000) as int;
    if v >= 0x2000 {
        v - 0x4000
    } else {
        v
    }
}

pub fn sign_extend_14(value: u32) -> (r: i32)
    ensures
        r as int == spec_sign_extend_14(value),
        -8192 <= r < 8192,
{
    let r = ((value << 18u32) as i32) >> 18u32;
    assert(value & 0x3FFF >= 0x2000 ==> ((value << 18u32) as i32) >> 18u32 == (value & 0x3FFF) as i32
        - 0x4000i32) by (bit_vector);
    assert(value & 0x3FFF < 0x2000 ==> ((value << 18u32) as i32) >> 18u32 == (value & 0x3FFF) as i32)
        by (bit_vector);
    assert(value & 0x3FFF == value % 0x4000) by (bit_vector);
    r
}


/// The decoded edge words of a triangle command.
pub struct TriEdges {
    pub right_major: bool,
    pub yl: i16,
    pub ym: i16,
    pub yh: i16,
    pub xl: i32,
    pub dl: i32,
    pub xh: i32,
    pub dh: i32,
    pub xm: i32,
    pub dm: i32,
}

/// An edge start: the 16.16 high word of an edge word, with two more fraction bits.
pub open spec fn edge_x(w: u64) -> i32 {
    ((w >> 32u64) as u32 as i32) << 2u32
}

/// An edge's per-subpixel-line step: the low word of an edge word.
pub open spec fn edge_slope(w: u64) -> i32 {
    w as u32 as i32
}

pub open spec fn decode_edges(cmd: Seq<u64>) -> TriEdges {
    TriEdges {
        right_major: (cmd[0] >> 55u64) & 1u64 != 0,
        yl: spec_sign_extend_14(((cmd[0] >> 32u64) & 0x3FFFu64) as u32) as i16,
        ym: spec_sign_extend_14(((cmd[0] >> 16u64) & 0x3FFFu64) as u32) as i16,
        yh: spec_sign_extend_14((cmd[0] & 0x3FFFu64) as u32) as i16,
        xl: edge_x(cmd[1]),
        dl: edge_slope(cmd[1]),
        xh: edge_x(cmd[2]),
        dh: edge_slope(cmd[2]),
        xm: edge_x(cmd[3]),
        dm: edge_slope(cmd[3]),
    }
}

/// Scissor as the triangle walker applies it: top and left clip at pixel granularity (the first
/// pixel whose top-left subpixel is inside), right and bottom at subpixel granularity.
pub struct TriClip {
    pub first_pixel_x: int,
    pub first_pixel_y: int,
    pub right: int,
    pub bottom: int,
}

pub open spec fn tri_clip(s: State) -> TriClip {
    let (sc_left, sc_top, sc_right, sc_bottom) = s.spec_scissor_bounds();
    TriClip {
        first_pixel_x: (sc_left + 3) / 4,
        first_pixel_y: (sc_top + 3) / 4,
        right: sc_right as int,
        bottom: sc_bottom as int,
    }
}

/// The scissor as the walker applies it never reaches a negative first column or past column
/// 4095.
pub proof fn tri_clip_bounds(s: State)
    ensures
        tri_clip(s).first_pixel_x >= 0,
        tri_clip(s).first_pixel_y >= 0,
        tri_clip(s).right <= 4096,
        tri_clip(s).bottom <= 4096,
{
    lemma_word_fields(s.scissor);
}

pub open spec fn left_edge(e: TriEdges, major: i32, minor: i32) -> i32 {
    if e.right_major {
        major
    } else {
        minor
    }
}

pub open spec fn right_edge(e: TriEdges, major: i32, minor: i32) -> i32 {
    if e.right_major {
        minor
    } else {
        major
    }
}

/// First painted pixel of a span: the left edge rounds up to the next pixel whose first subpixel
/// column is covered, clipped to the scissor.
pub open spec fn span_start(left: i32, c: TriClip) -> int {
    max((left.wrapping_add(0x3FFFFi32) >> 18u32) as int, c.first_pixel_x)
}

/// Last painted pixel of a span: the right edge paints its containing pixel; the scissor right
/// clips at subpixel granularity.
pub open spec fn span_end(right: i32, c: TriClip) -> int {
    min((right.wrapping_sub(8i32) >> 16u32) as int, c.right - 1) / 4
}

/// Only each pixel row's top subpixel line determines the painted pixels.
pub open spec fn sampled_line(c: TriClip, y: int) -> bool {
    y % 4 == 0 && y / 4 >= c.first_pixel_y
}

/// Memory after the zap walker's work on subpixel line y.
pub open spec fn zap_line(
    e: TriEdges,
    c: TriClip,
    t: PixelTarget,
    m: Map<u32, u8>,
    major: i32,
    minor: i32,
    y: int,
) -> Map<u32, u8> {
    let (l, r) = (left_edge(e, major, minor), right_edge(e, major, minor));
    if sampled_line(c, y) && r >= l {
        t.paint_span(m, y / 4, span_start(l, c), span_end(r, c))
    } else {
        m
    }
}

pub open spec fn zap_line_ok(
    e: TriEdges,
    c: TriClip,
    t: PixelTarget,
    dom: Set<u32>,
    major: i32,
    minor: i32,
    y: int,
) -> bool {
    let (l, r) = (left_edge(e, major, minor), right_edge(e, major, minor));
    sampled_line(c, y) && r >= l ==> t.span_ok(dom, y / 4, span_start(l, c), span_end(r, c))
}

/// The subpixel line the current section ends at.
pub open spec fn section_end(e: TriEdges, second: bool) -> int {
    if second {
        e.yl as int
    } else {
        e.ym as int
    }
}

/// The minor edge's step in the current section.
pub open spec fn minor_step(e: TriEdges, second: bool) -> i32 {
    if second {
        e.dl
    } else {
        e.dm
    }
}

/// Both edges step without leaving the i32 range.
pub open spec fn steps_fit(e: TriEdges, major: i32, minor: i32, second: bool) -> bool {
    i32::MIN <= major + e.dh <= i32::MAX && i32::MIN <= minor + minor_step(e, second) <= i32::MAX
}

/// Memory after walking a triangle with the zap coverage mode, from edge positions
/// (major, minor) on subpixel line y in the given section.
pub open spec fn zap_walk(
    e: TriEdges,
    c: TriClip,
    t: PixelTarget,
    m: Map<u32, u8>,
    major: i32,
    minor: i32,
    y: int,
    second: bool,
) -> Map<u32, u8>
    decreases (if second {
        0int
    } else {
        1int
    }), 32768 - y,
{
    if y >= section_end(e, second) {
        if second {
            m
        } else {
            zap_walk(e, c, t, m, major, e.xl, y, true)
        }
    } else if y >= c.bottom {
        m
    } else {
        zap_walk(
            e,
            c,
            t,
            zap_line(e, c, t, m, major, minor, y),
            (major + e.dh) as i32,
            (minor + minor_step(e, second)) as i32,
            y + 1,
            second,
        )
    }
}

/// The zap walk from this point stores only to accessible memory and never overflows an edge
/// accumulator.
pub open spec fn zap_walk_ok(
    e: TriEdges,
    c: TriClip,
    t: PixelTarget,
    dom: Set<u32>,
    major: i32,
    minor: i32,
    y: int,
    second: bool,
) -> bool
    decreases (if second {
        0int
    } else {
        1int
    }), 32768 - y,
{
    if y >= section_end(e, second) {
        if second {
            true
        } else {
            zap_walk_ok(e, c, t, dom, major, e.xl, y, true)
        }
    } else if y >= c.bottom {
        true
    } else {
        &&& zap_line_ok(e, c, t, dom, major, minor, y)
        &&& steps_fit(e, major, minor, second)
        &&& zap_walk_ok(
            e,
            c,
            t,
            dom,
            (major + e.dh) as i32,
            (minor + minor_step(e, second)) as i32,
            y + 1,
            second,
        )
    }
}


/// Address `a` is outside every pixel the scissor lets a triangle paint: the columns from the
/// first whole pixel right of the scissor left to the pixel holding the last subpixel column
/// left of the scissor right, on the rows from the first whole pixel row below the scissor top
/// whose top subpixel line lies above the scissor bottom.
pub open spec fn outside_scissor_pixels(t: PixelTarget, c: TriClip, a: u32) -> bool {
    forall|y: int, x: int|
        y >= c.first_pixel_y && 4 * y < c.bottom && c.first_pixel_x <= x <= (c.right - 1) / 4
            ==> #[trigger] outside_pixel(t, a, y, x)
}

/// The zap triangle stays inside the scissor: the walk leaves every byte outside the scissored
/// pixels unchanged (top and left clip at pixel granularity, right and bottom at subpixel
/// granularity).
pub proof fn zap_walk_stays_in_scissor(
    e: TriEdges,
    c: TriClip,
    t: PixelTarget,
    m: Map<u32, u8>,
    major: i32,
    minor: i32,
    y: int,
    second: bool,
    a: u32,
)
    requires
        zap_walk_ok(e, c, t, m.dom(), major, minor, y, second),
        outside_scissor_pixels(t, c, a),
    ensures
        zap_walk(e, c, t, m, major, minor, y, second)[a] == m[a],
    decreases (if second {
        0int
    } else {
        1int
    }), 32768 - y,
{
    if y >= section_end(e, second) {
        if !second {
            zap_walk_stays_in_scissor(e, c, t, m, major, e.xl, y, true, a);
        }
    } else if y < c.bottom {
        let (l, r) = (left_edge(e, major, minor), right_edge(e, major, minor));
        if sampled_line(c, y) && r >= l {
            let (x0, x1) = (span_start(l, c), span_end(r, c));
            assert forall|x: int| x0 <= x <= x1 implies #[trigger] outside_pixel(t, a, y / 4, x) by {
                assert(4 * (y / 4) == y);
                assert(x1 <= (c.right - 1) / 4);
                assert(outside_pixel(t, a, y / 4, x));
            }
            paint_span_frame(t, m, y / 4, x0, x1, a);
            lemma_paint_span_dom(t, m, y / 4, x0, x1);
        }
        zap_walk_stays_in_scissor(
            e,
            c,
            t,
            zap_line(e, c, t, m, major, minor, y),
            (major + e.dh) as i32,
            (minor + minor_step(e, second)) as i32,
            y + 1,
            second,
            a,
        );
    }
}


/// The edge positions (major, minor) on subpixel line y of a walk that is at (major0, minor0) on
/// line y0 in the given section, or `None` if the walk does not reach line y (the scissor
/// bottom aside). The major edge steps dh per line; the minor edge steps dm until ym, then
/// restarts at xl stepping dl until yl.
pub open spec fn walk_edges(
    e: TriEdges,
    major0: i32,
    minor0: i32,
    y0: int,
    second: bool,
    y: int,
) -> Option<(int, int)> {
    if y < y0 {
        None
    } else if !second && y < e.ym {
        Some((major0 + e.dh * (y - y0), minor0 + e.dm * (y - y0)))
    } else if y < e.yl {
        if second {
            Some((major0 + e.dh * (y - y0), minor0 + e.dl * (y - y0)))
        } else {
            Some((major0 + e.dh * (y - y0), e.xl + e.dl * (y - max(y0, e.ym as int))))
        }
    } else {
        None
    }
}

/// The walk from (major0, minor0, y0, second) paints pixel (px, py): the row's top subpixel
/// line 4 * py is reached above the scissor bottom, and px lies in the span of that line.
pub open spec fn painted_from(
    e: TriEdges,
    c: TriClip,
    major0: i32,
    minor0: i32,
    y0: int,
    second: bool,
    px: int,
    py: int,
) -> bool {
    let y = 4 * py;
    &&& sampled_line(c, y)
    &&& y < c.bottom
    &&& match walk_edges(e, major0, minor0, y0, second, y) {
        Some((ma, mi)) => {
            let (l, r) = (left_edge(e, ma as i32, mi as i32), right_edge(e, ma as i32, mi as i32));
            r >= l && span_start(l, c) <= px <= span_end(r, c)
        },
        None => false,
    }
}

/// The pixels of a zap triangle, in closed form: pixel (px, py) is painted iff its row's top
/// subpixel line y = 4 * py lies in [yh, max(ym, yl)), at or below the first whole scissor row
/// and above the scissor bottom, and px lies between the edges on that line, where the major
/// edge is at xh + dh * (y - yh) and the minor edge at xm + dm * (y - yh) above ym and at
/// xl + dl * (y - max(yh, ym)) from ym on. The left edge rounds up to the next pixel whose
/// first subpixel column is covered, the right edge paints its containing pixel.
pub open spec fn zap_painted(e: TriEdges, c: TriClip, px: int, py: int) -> bool {
    painted_from(e, c, e.xh, e.xm, e.yh as int, false, px, py)
}

/// One step of the walk: line y0 paints its span, and the rest of the walk paints what the walk
/// from the next line paints.
proof fn lemma_painted_step(
    e: TriEdges,
    c: TriClip,
    major: i32,
    minor: i32,
    y0: int,
    second: bool,
    px: int,
    py: int,
)
    requires
        y0 < section_end(e, second),
        y0 < c.bottom,
        steps_fit(e, major, minor, second),
    ensures
        painted_from(e, c, major, minor, y0, second, px, py) <==> ((4 * py == y0 && sampled_line(
            c,
            y0,
        ) && ({
            let (l, r) = (left_edge(e, major, minor), right_edge(e, major, minor));
            r >= l && span_start(l, c) <= px <= span_end(r, c)
        })) || painted_from(
            e,
            c,
            (major + e.dh) as i32,
            (minor + minor_step(e, second)) as i32,
            y0 + 1,
            second,
            px,
            py,
        )),
{
    let y = 4 * py;
    let nmaj = (major + e.dh) as i32;
    let nmin = (minor + minor_step(e, second)) as i32;
    if y > y0 {
        let k = y - y0;
        assert(e.dh * k == e.dh + e.dh * (k - 1)) by (nonlinear_arith);
        assert(e.dm * k == e.dm + e.dm * (k - 1)) by (nonlinear_arith);
        assert(e.dl * k == e.dl + e.dl * (k - 1)) by (nonlinear_arith);
        assert(walk_edges(e, major, minor, y0, second, y) == walk_edges(
            e,
            nmaj,
            nmin,
            y0 + 1,
            second,
            y,
        ));
    } else if y == y0 {
        assert(walk_edges(e, major, minor, y0, second, y) == Some((major as int, minor as int)));
    }
}

/// The walk's section switch changes nothing it paints.
proof fn lemma_painted_switch(
    e: TriEdges,
    c: TriClip,
    major: i32,
    minor: i32,
    y0: int,
    px: int,
    py: int,
)
    requires
        y0 >= e.ym,
    ensures
        painted_from(e, c, major, minor, y0, false, px, py) == painted_from(
            e,
            c,
            major,
            e.xl,
            y0,
            true,
            px,
            py,
        ),
{
    let y = 4 * py;
    assert(walk_edges(e, major, minor, y0, false, y) == walk_edges(e, major, e.xl, y0, true, y));
}

/// The zap walk writes nothing outside the pixels it paints.
proof fn lemma_zap_walk_frame(
    e: TriEdges,
    c: TriClip,
    t: PixelTarget,
    m: Map<u32, u8>,
    major: i32,
    minor: i32,
    y: int,
    second: bool,
    a: u32,
)
    requires
        zap_walk_ok(e, c, t, m.dom(), major, minor, y, second),
        forall|px: int, py: int|
            painted_from(e, c, major, minor, y, second, px, py) ==> #[trigger] outside_pixel(
                t,
                a,
                py,
                px,
            ),
    ensures
        zap_walk(e, c, t, m, major, minor, y, second)[a] == m[a],
    decreases (if second {
        0int
    } else {
        1int
    }), 32768 - y,
{
    if y >= section_end(e, second) {
        if !second {
            assert forall|px: int, py: int|
                painted_from(e, c, major, e.xl, y, true, px, py) implies #[trigger] outside_pixel(
                t,
                a,
                py,
                px,
            ) by {
                lemma_painted_switch(e, c, major, minor, y, px, py);
            }
            lemma_zap_walk_frame(e, c, t, m, major, e.xl, y, true, a);
        }
    } else if y < c.bottom {
        let (l, r) = (left_edge(e, major, minor), right_edge(e, major, minor));
        let nmaj = (major + e.dh) as i32;
        let nmin = (minor + minor_step(e, second)) as i32;
        if sampled_line(c, y) && r >= l {
            let (x0, x1) = (span_start(l, c), span_end(r, c));
            assert forall|x: int| x0 <= x <= x1 implies #[trigger] outside_pixel(t, a, y / 4, x) by {
                lemma_painted_step(e, c, major, minor, y, second, x, y / 4);
            }
            paint_span_frame(t, m, y / 4, x0, x1, a);
            lemma_paint_span_dom(t, m, y / 4, x0, x1);
        }
        assert forall|px: int, py: int|
            painted_from(e, c, nmaj, nmin, y + 1, second, px, py) implies #[trigger] outside_pixel(
            t,
            a,
            py,
            px,
        ) by {
            lemma_painted_step(e, c, major, minor, y, second, px, py);
        }
        lemma_zap_walk_frame(
            e,
            c,
            t,
            zap_line(e, c, t, m, major, minor, y),
            nmaj,
            nmin,
            y + 1,
            second,
            a,
        );
    }
}

/// The zap walk keeps the value of every pixel of a uniform target that already holds it.
proof fn lemma_zap_walk_keeps(
    e: TriEdges,
    c: TriClip,
    t: PixelTarget,
    m: Map<u32, u8>,
    major: i32,
    minor: i32,
    y: int,
    second: bool,
    y2: int,
    x2: int,
)
    requires
        uniform(t),
        zap_walk_ok(e, c, t, m.dom(), major, minor, y, second),
        t.pixel_ok(m.dom(), y2, x2),
        pixel_value_ok(t, m, y2, x2),
    ensures
        pixel_value_ok(t, zap_walk(e, c, t, m, major, minor, y, second), y2, x2),
    decreases (if second {
        0int
    } else {
        1int
    }), 32768 - y,
{
    if y >= section_end(e, second) {
        if !second {
            lemma_zap_walk_keeps(e, c, t, m, major, e.xl, y, true, y2, x2);
        }
    } else if y < c.bottom {
        let (l, r) = (left_edge(e, major, minor), right_edge(e, major, minor));
        if sampled_line(c, y) && r >= l {
            let (x0, x1) = (span_start(l, c), span_end(r, c));
            lemma_paint_span_values(t, m, y / 4, x0, x1, y2, x2);
            lemma_paint_span_dom(t, m, y / 4, x0, x1);
        }
        lemma_zap_walk_keeps(
            e,
            c,
            t,
            zap_line(e, c, t, m, major, minor, y),
            (major + e.dh) as i32,
            (minor + minor_step(e, second)) as i32,
            y + 1,
            second,
            y2,
            x2,
        );
    }
}

/// Every pixel the zap walk paints ends up holding its value (on a uniform target).
proof fn lemma_zap_walk_paints(
    e: TriEdges,
    c: TriClip,
    t: PixelTarget,
    m: Map<u32, u8>,
    major: i32,
    minor: i32,
    y: int,
    second: bool,
    px: int,
    py: int,
)
    requires
        uniform(t),
        zap_walk_ok(e, c, t, m.dom(), major, minor, y, second),
        painted_from(e, c, major, minor, y, second, px, py),
    ensures
        pixel_value_ok(t, zap_walk(e, c, t, m, major, minor, y, second), py, px),
    decreases (if second {
        0int
    } else {
        1int
    }), 32768 - y,
{
    if y >= section_end(e, second) {
        if !second {
            lemma_painted_switch(e, c, major, minor, y, px, py);
            lemma_zap_walk_paints(e, c, t, m, major, e.xl, y, true, px, py);
        } else {
            assert(walk_edges(e, major, minor, y, second, 4 * py) is None);
        }
    } else if y >= c.bottom {
        assert(walk_edges(e, major, minor, y, second, 4 * py) is None);
    } else {
        let (l, r) = (left_edge(e, major, minor), right_edge(e, major, minor));
        let nmaj = (major + e.dh) as i32;
        let nmin = (minor + minor_step(e, second)) as i32;
        let m1 = zap_line(e, c, t, m, major, minor, y);
        if sampled_line(c, y) && r >= l {
            lemma_paint_span_dom(t, m, y / 4, span_start(l, c), span_end(r, c));
        }
        lemma_painted_step(e, c, major, minor, y, second, px, py);
        if painted_from(e, c, nmaj, nmin, y + 1, second, px, py) {
            lemma_zap_walk_paints(e, c, t, m1, nmaj, nmin, y + 1, second, px, py);
        } else {
            assert(4 * py == y);
            assert(t.pixel_ok(m.dom(), py, px));
            lemma_paint_span_values(t, m, py, span_start(l, c), span_end(r, c), py, px);
            lemma_zap_walk_keeps(e, c, t, m1, nmaj, nmin, y + 1, second, py, px);
        }
    }
}

/// The zap triangle writes exactly its closed-form pixels: every byte outside the pixels of
/// `zap_painted` keeps its value.
pub proof fn zap_triangle_writes_only_painted(
    e: TriEdges,
    c: TriClip,
    t: PixelTarget,
    m: Map<u32, u8>,
    a: u32,
)
    requires
        zap_walk_ok(e, c, t, m.dom(), e.xh, e.xm, e.yh as int, false),
        forall|px: int, py: int| zap_painted(e, c, px, py) ==> #[trigger] outside_pixel(t, a, py, px),
    ensures
        zap_walk(e, c, t, m, e.xh, e.xm, e.yh as int, false)[a] == m[a],
{
    lemma_zap_walk_frame(e, c, t, m, e.xh, e.xm, e.yh as int, false, a);
}

/// Every pixel of `zap_painted` holds the triangle's value afterwards (the target's value is
/// the same for every pixel, as the blend color is).
pub proof fn zap_triangle_paints(
    e: TriEdges,
    c: TriClip,
    t: PixelTarget,
    m: Map<u32, u8>,
    px: int,
    py: int,
)
    requires
        uniform(t),
        zap_walk_ok(e, c, t, m.dom(), e.xh, e.xm, e.yh as int, false),
        zap_painted(e, c, px, py),
    ensures
        pixel_value_ok(t, zap_walk(e, c, t, m, e.xh, e.xm, e.yh as int, false), py, px),
{
    lemma_zap_walk_paints(e, c, t, m, e.xh, e.xm, e.yh as int, false, px, py);
}

/// Pixel px is covered on a line whose major edge is at ma and minor edge at mi (16.16 shifted
/// by 2): the left edge is the major edge for a right-major triangle (bit 55) and the minor
/// edge otherwise; the pixel's top-left subpixel column lies at or right of the left edge, at
/// least 2.0 subpixel units left of the right edge, and inside the scissor columns.
pub open spec fn top_left_covered(e: TriEdges, c: TriClip, ma: int, mi: int, px: int) -> bool {
    let (l, r) = if e.right_major {
        (ma, mi)
    } else {
        (mi, ma)
    };
    &&& c.first_pixel_x <= px
    &&& 4 * px < c.right
    &&& l <= px * 0x40000
    &&& px * 0x40000 + 8 <= r
}

/// Both edges of a line stay clear of i32 wrapping in the span arithmetic.
pub open spec fn edges_in_range(ma: int, mi: int) -> bool {
    &&& i32::MIN + 8 <= ma <= i32::MAX - 0x3FFFF
    &&& i32::MIN + 8 <= mi <= i32::MAX - 0x3FFFF
}

proof fn lemma_edge_shifts(a: i32)
    by (bit_vector)
    ensures
        a >> 18u32 == a / 0x40000,
        a >> 16u32 == a / 0x10000,
{
}

/// The span rule of a line, in closed form.
proof fn lemma_span_explicit(e: TriEdges, c: TriClip, ma: int, mi: int, px: int)
    requires
        edges_in_range(ma, mi),
    ensures
        ({
            let (l, r) = (left_edge(e, ma as i32, mi as i32), right_edge(e, ma as i32, mi as i32));
            (r >= l && span_start(l, c) <= px <= span_end(r, c)) <==> top_left_covered(
                e,
                c,
                ma,
                mi,
                px,
            )
        }),
{
    let (l, r) = (left_edge(e, ma as i32, mi as i32), right_edge(e, ma as i32, mi as i32));
    let lw = l.wrapping_add(0x3FFFFi32);
    let rw = r.wrapping_sub(8i32);
    assert(lw == l + 0x3FFFF);
    assert(rw == r - 8);
    lemma_edge_shifts(lw);
    lemma_edge_shifts(rw);
}

/// The zap triangle's pixel rule over all pixels: a pixel whose row's top subpixel line
/// y = 4 * py is walked (in [yh, max(ym, yl)), at or below the first whole scissor row, above the
/// scissor bottom) and whose top-left subpixel is covered there (`top_left_covered`, with the
/// major edge at xh + dh * (y - yh) and the minor edge at xm + dm * (y - yh) above ym and at
/// xl + dl * (y - max(yh, ym)) from ym on) holds the triangle's value afterwards.
pub proof fn zap_triangle_paints_covered(
    e: TriEdges,
    c: TriClip,
    t: PixelTarget,
    m: Map<u32, u8>,
    px: int,
    py: int,
)
    requires
        uniform(t),
        zap_walk_ok(e, c, t, m.dom(), e.xh, e.xm, e.yh as int, false),
    ensures
        match walk_edges(e, e.xh, e.xm, e.yh as int, false, 4 * py) {
            Some((ma, mi)) => edges_in_range(ma, mi) && py >= c.first_pixel_y && 4 * py < c.bottom
                && top_left_covered(e, c, ma, mi, px) ==> pixel_value_ok(
                t,
                zap_walk(e, c, t, m, e.xh, e.xm, e.yh as int, false),
                py,
                px,
            ),
            None => true,
        },
{
    match walk_edges(e, e.xh, e.xm, e.yh as int, false, 4 * py) {
        Some((ma, mi)) => {
            if edges_in_range(ma, mi) && py >= c.first_pixel_y && 4 * py < c.bottom
                && top_left_covered(e, c, ma, mi, px) {
                lemma_span_explicit(e, c, ma, mi, px);
                assert(painted_from(e, c, e.xh, e.xm, e.yh as int, false, px, py));
                zap_triangle_paints(e, c, t, m, px, py);
            }
        },
        None => {},
    }
}

/// The zap triangle writes nothing outside the covered pixels of its walked rows (so nothing
/// outside the scissor, and nothing left of the left edge or right of the right edge as bit 55
/// assigns them), provided the edges stay clear of i32 wrapping on every walked line.
pub proof fn zap_triangle_writes_only_covered(
    e: TriEdges,
    c: TriClip,
    t: PixelTarget,
    m: Map<u32, u8>,
    a: u32,
)
    requires
        zap_walk_ok(e, c, t, m.dom(), e.xh, e.xm, e.yh as int, false),
        forall|y: int| #[trigger]
            walk_edges(e, e.xh, e.xm, e.yh as int, false, y) is Some ==> edges_in_range(
                walk_edges(e, e.xh, e.xm, e.yh as int, false, y).unwrap().0,
                walk_edges(e, e.xh, e.xm, e.yh as int, false, y).unwrap().1,
            ),
        forall|px: int, py: int|
            #![trigger outside_pixel(t, a, py, px)]
            walk_edges(e, e.xh, e.xm, e.yh as int, false, 4 * py) is Some && py >= c.first_pixel_y && 4
                * py < c.bottom && top_left_covered(
                e,
                c,
                walk_edges(e, e.xh, e.xm, e.yh as int, false, 4 * py).unwrap().0,
                walk_edges(e, e.xh, e.xm, e.yh as int, false, 4 * py).unwrap().1,
                px,
            ) ==> outside_pixel(t, a, py, px),
    ensures
        zap_walk(e, c, t, m, e.xh, e.xm, e.yh as int, false)[a] == m[a],
{
    assert forall|px: int, py: int| zap_painted(e, c, px, py) implies #[trigger] outside_pixel(
        t,
        a,
        py,
        px,
    ) by {
        let w = walk_edges(e, e.xh, e.xm, e.yh as int, false, 4 * py);
        assert(w is Some);
        lemma_span_explicit(e, c, w.unwrap().0, w.unwrap().1, px);
    }
    zap_triangle_writes_only_painted(e, c, t, m, a);
}

/// The clamp triangle writes nothing outside the covered pixels of its walked rows, with the
/// major edge one step ahead (at xh + dh * (y - yh + 1)) and the rows starting at yh rounded up
/// to a whole pixel row, provided the edges stay clear of i32 wrapping on every walked line.
pub proof fn clamp_triangle_writes_only_covered(
    e: TriEdges,
    c: TriClip,
    t: PixelTarget,
    dom: Set<u32>,
    blend: u32,
    m: Map<u32, u8>,
    a: u32,
)
    requires
        t.size != 2,
        clamp_walk_ok(e, c, t, dom, no_row(), e.xh.wrapping_add(e.dh), e.xm, e.yh as int, false),
        forall|y: int| #[trigger]
            walk_edges(e, e.xh.wrapping_add(e.dh), e.xm, e.yh as int, false, y) is Some
                ==> edges_in_range(
                walk_edges(e, e.xh.wrapping_add(e.dh), e.xm, e.yh as int, false, y).unwrap().0,
                walk_edges(e, e.xh.wrapping_add(e.dh), e.xm, e.yh as int, false, y).unwrap().1,
            ),
        forall|px: int, py: int|
            #![trigger outside_pixel(t, a, py, px)]
            walk_edges(e, e.xh.wrapping_add(e.dh), e.xm, e.yh as int, false, 4 * py) is Some && py
                >= c.first_pixel_y && 4 * py < c.bottom && 4 * py >= clamp_y_start(e)
                && top_left_covered(
                e,
                c,
                walk_edges(e, e.xh.wrapping_add(e.dh), e.xm, e.yh as int, false, 4 * py).unwrap().0,
                walk_edges(e, e.xh.wrapping_add(e.dh), e.xm, e.yh as int, false, 4 * py).unwrap().1,
                px,
            ) ==> outside_pixel(t, a, py, px),
    ensures
        clamp_walk(e, c, t, blend, m, no_row(), e.xh.wrapping_add(e.dh), e.xm, e.yh as int, false)[a]
            == m[a],
{
    assert forall|px: int, py: int| clamp_painted(e, c, px, py) implies #[trigger] outside_pixel(
        t,
        a,
        py,
        px,
    ) by {
        let w = walk_edges(e, e.xh.wrapping_add(e.dh), e.xm, e.yh as int, false, 4 * py);
        assert(w is Some);
        lemma_span_explicit(e, c, w.unwrap().0, w.unwrap().1, px);
    }
    clamp_triangle_writes_only_painted(e, c, t, dom, blend, m, a);
}

/// Pixel (x, y) holds the blend color's r, g and b (its alpha byte carries the coverage).
pub open spec fn rgb_ok(t: PixelTarget, m: Map<u32, u8>, blend: u32, y: int, x: int) -> bool {
    load32(m, t.pixel_addr(y, x) as u32) / 256 == blend / 256
}

proof fn lemma_blend_rgb(blend: u32, alpha: u32)
    by (bit_vector)
    ensures
        alpha < 256 ==> blend32(blend, alpha) / 256 == blend / 256,
{
}

/// Storing the blend color with some alpha at pixel (x, y) makes it hold the blend color's
/// r, g, b, and keeps that of every other pixel that holds it.
proof fn lemma_store_rgb(
    t: PixelTarget,
    dom: Set<u32>,
    m: Map<u32, u8>,
    blend: u32,
    alpha: u32,
    y: int,
    x: int,
    y2: int,
    x2: int,
)
    requires
        t.size == 3,
        alpha < 256,
        t.pixel_ok(dom, y, x),
        t.pixel_ok(dom, y2, x2),
    ensures
        rgb_ok(t, store32(m, t.pixel_addr(y, x) as u32, blend32(blend, alpha)), blend, y, x),
        rgb_ok(t, m, blend, y2, x2) ==> rgb_ok(
            t,
            store32(m, t.pixel_addr(y, x) as u32, blend32(blend, alpha)),
            blend,
            y2,
            x2,
        ),
{
    let a = t.pixel_addr(y, x) as u32;
    let b = t.pixel_addr(y2, x2) as u32;
    let v = blend32(blend, alpha);
    lemma_blend_rgb(blend, alpha);
    load32_of_store32(m, a, v);
    lemma_pixel_alias(t, y, x, y2, x2);
    if a != b {
        store32_frame(m, a, v, b);
        store32_frame(m, a, v, (b + 1) as u32);
        store32_frame(m, a, v, (b + 2) as u32);
        store32_frame(m, a, v, (b + 3) as u32);
    }
}

/// Flushing a row writes the blend color's r, g, b into every counted pixel of its range and
/// keeps them in every other pixel that holds them.
proof fn lemma_flush_rgb(
    t: PixelTarget,
    dom: Set<u32>,
    m: Map<u32, u8>,
    blend: u32,
    row: CoverageRow,
    n: int,
    py: int,
    px: int,
)
    requires
        t.size == 3,
        row.active,
        flush_ok(t, dom, row),
        t.pixel_ok(dom, py, px),
        n <= 1024,
    ensures
        rgb_ok(t, m, blend, py, px) ==> rgb_ok(t, flush_upto(t, m, blend, row, n), blend, py, px),
        row.y == py && 0 <= px < n && row.cov[px] > 0 && row.px_start <= px <= row.px_end ==> rgb_ok(
            t,
            flush_upto(t, m, blend, row, n),
            blend,
            py,
            px,
        ),
    decreases n,
{
    if n > 0 {
        lemma_flush_rgb(t, dom, m, blend, row, n - 1, py, px);
        let x = n - 1;
        if row.cov[x] > 0 && row.px_start <= x <= row.px_end {
            assert(t.pixel_ok(dom, row.y, x));
            let alpha = clamp_alpha_of(min(row.cov[x], 8));
            assert(alpha < 256);
            lemma_store_rgb(
                t,
                dom,
                flush_upto(t, m, blend, row, n - 1),
                blend,
                alpha,
                row.y,
                x,
                py,
                px,
            );
        }
    }
}

/// The clamp walk keeps the blend color's r, g, b in every pixel that holds them.
proof fn lemma_clamp_walk_keeps_rgb(
    e: TriEdges,
    c: TriClip,
    t: PixelTarget,
    dom: Set<u32>,
    blend: u32,
    m: Map<u32, u8>,
    row: CoverageRow,
    major: i32,
    minor: i32,
    y: int,
    second: bool,
    py: int,
    px: int,
)
    requires
        t.size == 3,
        clamp_walk_ok(e, c, t, dom, row, major, minor, y, second),
        t.pixel_ok(dom, py, px),
        rgb_ok(t, m, blend, py, px),
    ensures
        rgb_ok(t, clamp_walk(e, c, t, blend, m, row, major, minor, y, second), blend, py, px),
    decreases (if second {
        0int
    } else {
        1int
    }), 32768 - y,
{
    if y >= section_end(e, second) {
        if second {
            if row.active {
                lemma_flush_rgb(t, dom, m, blend, row, 1024, py, px);
            }
        } else {
            lemma_clamp_walk_keeps_rgb(e, c, t, dom, blend, m, row, major, e.xl, y, true, py, px);
        }
    } else if y >= c.bottom {
        if row.active {
            lemma_flush_rgb(t, dom, m, blend, row, 1024, py, px);
        }
    } else {
        let next_major = (major + e.dh) as i32;
        let next_minor = (minor + minor_step(e, second)) as i32;
        if clamp_line_sampled(e, c, y) {
            let m1 = if clamp_row_switch(row, y) {
                flush_row(t, m, blend, row)
            } else {
                m
            };
            if clamp_row_switch(row, y) && row.active {
                lemma_flush_rgb(t, dom, m, blend, row, 1024, py, px);
            }
            lemma_clamp_walk_keeps_rgb(
                e,
                c,
                t,
                dom,
                blend,
                m1,
                clamp_line(e, c, clamp_row_for(row, y), major, minor, y),
                next_major,
                next_minor,
                y + 1,
                second,
                py,
                px,
            );
        } else {
            lemma_clamp_walk_keeps_rgb(
                e,
                c,
                t,
                dom,
                blend,
                m,
                row,
                next_major,
                next_minor,
                y + 1,
                second,
                py,
                px,
            );
        }
    }
}

/// One step of the walk leaves the edge positions of every later line as they were.
proof fn lemma_walk_edges_step(
    e: TriEdges,
    major: i32,
    minor: i32,
    y0: int,
    second: bool,
    y: int,
)
    requires
        y0 < section_end(e, second),
        steps_fit(e, major, minor, second),
        y > y0,
    ensures
        walk_edges(e, major, minor, y0, second, y) == walk_edges(
            e,
            (major + e.dh) as i32,
            (minor + minor_step(e, second)) as i32,
            y0 + 1,
            second,
            y,
        ),
{
    let k = y - y0;
    assert(e.dh * k == e.dh + e.dh * (k - 1)) by (nonlinear_arith);
    assert(e.dm * k == e.dm + e.dm * (k - 1)) by (nonlinear_arith);
    assert(e.dl * k == e.dl + e.dl * (k - 1)) by (nonlinear_arith);
}

/// The counts of a coverage row are non-negative.
pub open spec fn row_nonneg(row: CoverageRow) -> bool {
    &&& row.cov.len() == 1024
    &&& forall|i: int| 0 <= i < 1024 ==> #[trigger] row.cov[i] >= 0
}

/// The clamp walk writes the blend color's r, g, b into pixel (px, py) if that pixel is counted
/// in the open row past its top line, or if its top-left subpixel is covered on a line still
/// ahead.
proof fn lemma_clamp_walk_writes(
    e: TriEdges,
    c: TriClip,
    t: PixelTarget,
    dom: Set<u32>,
    blend: u32,
    m: Map<u32, u8>,
    row: CoverageRow,
    major: i32,
    minor: i32,
    y: int,
    second: bool,
    py: int,
    px: int,
)
    requires
        t.size == 3,
        c.right <= 4096,
        c.first_pixel_x >= 0,
        clamp_walk_ok(e, c, t, dom, row, major, minor, y, second),
        row_nonneg(row),
        (row.active && row.y == py && y > 4 * py && row.px_start <= px <= row.px_end && 0 <= px
            < 1024 && row.cov[px] >= 1) || (y <= 4 * py && match walk_edges(
            e,
            major,
            minor,
            y,
            second,
            4 * py,
        ) {
            Some((ma, mi)) => edges_in_range(ma, mi) && py >= c.first_pixel_y && 4 * py < c.bottom
                && 4 * py >= clamp_y_start(e) && top_left_covered(e, c, ma, mi, px),
            None => false,
        }),
    ensures
        rgb_ok(t, clamp_walk(e, c, t, blend, m, row, major, minor, y, second), blend, py, px),
    decreases (if second {
        0int
    } else {
        1int
    }), 32768 - y,
{
    let p1 = row.active && row.y == py && y > 4 * py && row.px_start <= px <= row.px_end && 0 <= px
        < 1024 && row.cov[px] >= 1;
    if y >= section_end(e, second) {
        if second {
            assert(p1);
            lemma_flush_rgb(t, dom, m, blend, row, 1024, py, px);
        } else {
            assert(walk_edges(e, major, minor, y, false, 4 * py) == walk_edges(
                e,
                major,
                e.xl,
                y,
                true,
                4 * py,
            ));
            lemma_clamp_walk_writes(e, c, t, dom, blend, m, row, major, e.xl, y, true, py, px);
        }
    } else if y >= c.bottom {
        assert(p1);
        lemma_flush_rgb(t, dom, m, blend, row, 1024, py, px);
    } else {
        let next_major = (major + e.dh) as i32;
        let next_minor = (minor + minor_step(e, second)) as i32;
        if y < 4 * py {
            lemma_walk_edges_step(e, major, minor, y, second, 4 * py);
        }
        if clamp_line_sampled(e, c, y) {
            let sw = clamp_row_switch(row, y);
            let m1 = if sw {
                flush_row(t, m, blend, row)
            } else {
                m
            };
            let base = clamp_row_for(row, y);
            let next_row = clamp_line(e, c, base, major, minor, y);
            let (l, r) = (left_edge(e, major, minor), right_edge(e, major, minor));
            assert forall|i: int| 0 <= i < 1024 implies #[trigger] next_row.cov[i] >= 0 by {
                lemma_line_count_bounds(i, y, sample_start(l, c), sample_end(r, c));
            }
            if p1 && sw {
                lemma_flush_rgb(t, dom, m, blend, row, 1024, py, px);
                assert(t.pixel_ok(dom, py, px));
                lemma_clamp_walk_keeps_rgb(
                    e,
                    c,
                    t,
                    dom,
                    blend,
                    m1,
                    next_row,
                    next_major,
                    next_minor,
                    y + 1,
                    second,
                    py,
                    px,
                );
            } else {
                if !p1 && y == 4 * py {
                    let (ma, mi) = (major as int, minor as int);
                    assert(e.dh * 0 == 0 && e.dm * 0 == 0 && e.dl * 0 == 0);
                    assert(walk_edges(e, major, minor, y, second, y) == Some((ma, mi)));
                    assert(0 <= px < 1024);
                    lemma_span_explicit(e, c, ma, mi, px);
                    let lw = l.wrapping_add(0xFFFFi32);
                    let rw = r.wrapping_sub(8i32);
                    assert(lw == l + 0xFFFF);
                    assert(rw == r - 8);
                    lemma_edge_shifts(lw);
                    lemma_edge_shifts(rw);
                    assert(sample_start(l, c) <= 4 * px);
                    assert(sample_end(r, c) >= 4 * px);
                    assert((4 * px + y) % 2 == 0);
                    assert(line_count(px, y, sample_start(l, c), sample_end(r, c)) >= 1);
                    assert(base.cov[px] >= 0);
                }
                lemma_clamp_walk_writes(
                    e,
                    c,
                    t,
                    dom,
                    blend,
                    m1,
                    next_row,
                    next_major,
                    next_minor,
                    y + 1,
                    second,
                    py,
                    px,
                );
            }
        } else {
            lemma_clamp_walk_writes(
                e,
                c,
                t,
                dom,
                blend,
                m,
                row,
                next_major,
                next_minor,
                y + 1,
                second,
                py,
                px,
            );
        }
    }
}

/// The clamp triangle's pixel rule over all pixels: a pixel whose row's top subpixel line
/// y = 4 * py is walked (from yh rounded up to a whole pixel row, at or below the first whole
/// scissor row, above the scissor bottom) and whose top-left subpixel is covered there
/// (`top_left_covered`, with the major edge one step ahead at xh + dh * (y - yh + 1)) holds the
/// blend color's r, g and b afterwards, whatever coverage alpha it gets.
pub proof fn clamp_triangle_paints_covered(
    e: TriEdges,
    c: TriClip,
    t: PixelTarget,
    dom: Set<u32>,
    blend: u32,
    m: Map<u32, u8>,
    px: int,
    py: int,
)
    requires
        t.size == 3,
        c.right <= 4096,
        c.first_pixel_x >= 0,
        clamp_walk_ok(e, c, t, dom, no_row(), e.xh.wrapping_add(e.dh), e.xm, e.yh as int, false),
    ensures
        match walk_edges(e, e.xh.wrapping_add(e.dh), e.xm, e.yh as int, false, 4 * py) {
            Some((ma, mi)) => edges_in_range(ma, mi) && py >= c.first_pixel_y && 4 * py < c.bottom
                && 4 * py >= clamp_y_start(e) && top_left_covered(e, c, ma, mi, px) ==> rgb_ok(
                t,
                clamp_walk(
                    e,
                    c,
                    t,
                    blend,
                    m,
                    no_row(),
                    e.xh.wrapping_add(e.dh),
                    e.xm,
                    e.yh as int,
                    false,
                ),
                blend,
                py,
                px,
            ),
            None => true,
        },
{
    match walk_edges(e, e.xh.wrapping_add(e.dh), e.xm, e.yh as int, false, 4 * py) {
        Some((ma, mi)) => {
            if edges_in_range(ma, mi) && py >= c.first_pixel_y && 4 * py < c.bottom && 4 * py
                >= clamp_y_start(e) && top_left_covered(e, c, ma, mi, px) {
                assert(4 * py >= e.yh);
                lemma_clamp_walk_writes(
                    e,
                    c,
                    t,
                    dom,
                    blend,
                    m,
                    no_row(),
                    e.xh.wrapping_add(e.dh),
                    e.xm,
                    e.yh as int,
                    false,
                    py,
                    px,
                );
            }
        },
        None => {},
    }
}

/// Shift, mask and parity facts on subpixel coordinates.
pub proof fn lemma_i32_bits(a: i32, b: i32)
    by (bit_vector)
    ensures
        (a >> 2u32) == a / 4,
        ((a & 3i32) == 0) == ((a & !3i32) == a),
        (((a ^ b) & 1i32) == 0) == ((a + b) % 2 == 0),
        (a & !3i32) == (a / 4) * 4,
        0 <= a <= 1024 ==> a << 2u32 == a * 4,
{
}

/// The triangle walker's inputs, decoded by the exec code: edge words and scissor.
struct Walker {
    right_major: bool,
    yl: i32,
    ym: i32,
    yh: i32,
    xl: i32,
    dl: i32,
    xh: i32,
    dh: i32,
    xm: i32,
    dm: i32,
    first_pixel_x: i32,
    first_pixel_y: i32,
    sc_right: i32,
    sc_bottom: i32,
}

impl Walker {
    spec fn matches(self, e: TriEdges, c: TriClip) -> bool {
        &&& self.right_major == e.right_major
        &&& self.yl as int == e.yl as int && self.ym as int == e.ym as int && self.yh as int
            == e.yh as int
        &&& self.xl == e.xl && self.dl == e.dl && self.xh == e.xh && self.dh == e.dh && self.xm
            == e.xm && self.dm == e.dm
        &&& self.first_pixel_x as int == c.first_pixel_x && self.first_pixel_y as int
            == c.first_pixel_y
        &&& self.sc_right as int == c.right && self.sc_bottom as int == c.bottom
        &&& -8192 <= self.yl < 8192 && -8192 <= self.ym < 8192 && -8192 <= self.yh < 8192
        &&& 0 <= self.first_pixel_x <= 1024 && 0 <= self.first_pixel_y <= 1024
        &&& 0 <= self.sc_right < 4096 && 0 <= self.sc_bottom < 4096
    }
}

/// Decodes the edge words and the scissor.
fn decode_walker(state: &State, cmd: &[u64]) -> (w: Walker)
    requires
        cmd@.len() >= 4,
    ensures
        w.matches(decode_edges(cmd@), tri_clip(*state)),
{
    let w0 = cmd[0];
    let right_major = (w0 >> 55u64) & 1u64 != 0;
    let yl = sign_extend_14(((w0 >> 32u64) & 0x3FFFu64) as u32);
    let ym = sign_extend_14(((w0 >> 16u64) & 0x3FFFu64) as u32);
    let yh = sign_extend_14((w0 & 0x3FFFu64) as u32);
    let xl = ((cmd[1] >> 32u64) as u32 as i32).wrapping_shl(2);
    let dl = cmd[1] as u32 as i32;
    let xh = ((cmd[2] >> 32u64) as u32 as i32).wrapping_shl(2);
    let dh = cmd[2] as u32 as i32;
    let xm = ((cmd[3] >> 32u64) as u32 as i32).wrapping_shl(2);
    let dm = cmd[3] as u32 as i32;

    let (sc_left, sc_top, sc_right, sc_bottom) = state.scissor_bounds();
    // Left/top clip at pixel granularity, right/bottom at subpixel granularity
    let first_pixel_x = ((sc_left as i32) + 3) / 4;
    let first_pixel_y = ((sc_top as i32) + 3) / 4;
    Walker {
        right_major,
        yl,
        ym,
        yh,
        xl,
        dl,
        xh,
        dh,
        xm,
        dm,
        first_pixel_x,
        first_pixel_y,
        sc_right: sc_right as i32,
        sc_bottom: sc_bottom as i32,
    }
}

/// The painted span [px_start, px_end] of the line with the given left and right edges.
fn span_bounds(left: i32, right: i32, first_pixel_x: i32, sc_right: i32, Ghost(c): Ghost<TriClip>) -> (r: (i32, i32))
    requires
        first_pixel_x as int == c.first_pixel_x,
        sc_right as int == c.right,
        0 <= first_pixel_x <= 1024,
        0 <= sc_right < 4096,
    ensures
        r.0 as int == span_start(left, c),
        r.1 as int == span_end(right, c),
        r.0 >= 0,
        r.1 < 1024,
{
    let px_start = (left.wrapping_add(0x3FFFFi32) >> 18u32).max(first_pixel_x);
    let end_subpixel = (right.wrapping_sub(8i32) >> 16u32).min(sc_right - 1);
    let px_end = end_subpixel >> 2u32;
    proof {
        lemma_i32_bits(end_subpixel, 0);
    }
    (px_start, px_end)
}

/// Fill_Triangle in 1-cycle mode, restricted like the 1-cycle rectangle to the verified
/// pipeline configuration (blender output = blend color, coverage mode zap), so this is geometry
/// only: a pixel is painted iff its top-left subpixel is inside the primitive. Only each pixel
/// row's top subpixel line (y % 4 == 0) is sampled, and on it only whole-pixel subpixel columns:
/// left rounds up to the next pixel, right paints its containing pixel, a fractional yh skips
/// its partial top row, yl paints its containing row. The edges still step across every
/// subpixel line. Returns false (unhandled) for other pipeline configurations and for
/// framebuffers other than 16bpp and 32bpp.
pub fn one_cycle_fill_triangle<R: Rdram>(state: &State, mem: &mut R, cmd: &[u64]) -> (handled: bool)
    requires
        cmd@.len() >= 4,
        blend_color_zap(*state) && writes_pixels(blend_target(*state)) ==> ({
            let e = decode_edges(cmd@);
            zap_walk_ok(
                e,
                tri_clip(*state),
                blend_target(*state),
                old(mem).bytes().dom(),
                e.xh,
                e.xm,
                e.yh as int,
                false,
            )
        }),
    ensures
        handled == (blend_color_zap(*state) && writes_pixels(blend_target(*state))),
        final(mem).bytes() == if handled {
            let e = decode_edges(cmd@);
            zap_walk(
                e,
                tri_clip(*state),
                blend_target(*state),
                old(mem).bytes(),
                e.xh,
                e.xm,
                e.yh as int,
                false,
            )
        } else {
            old(mem).bytes()
        },
        final(mem).hidden() == old(mem).hidden(),
        forall|a: u32| #[trigger] final(mem).hidden_index(a) == old(mem).hidden_index(a),
{
    if !crate::raster::blender_outputs_blend_color(state) || state.coverage_mode() != 2 {
        return false;
    }
    let size = state.color_image_size();
    if size != 2 && size != 3 {
        return false;
    }
    let w = decode_walker(state, cmd);
    let ghost e = decode_edges(cmd@);
    let ghost c = tri_clip(*state);
    let ghost t = blend_target(*state);

    // Resolve the pixel write up front
    let blend = state.blend_color;
    let (r, g, b) = (blend >> 24u32, (blend >> 16u32) & 0xFFu32, (blend >> 8u32) & 0xFFu32);
    let base = state.color_image_addr();
    let stride_pixels = state.color_image_width() + 1;
    let value16 = ((r >> 3u32) << 11u32) | ((g >> 3u32) << 6u32) | ((b >> 3u32) << 1u32) | 1u32;
    let value32 = (r << 24u32) | (g << 16u32) | (b << 8u32) | 0xE0u32;
    let even = if size == 2 {
        value16
    } else {
        value32
    };
    let bpp: u32 = if size == 2 {
        2
    } else {
        4
    };

    let ghost m0 = mem.bytes();
    let ghost h0 = mem.hidden();
    let mut major_x = w.xh;
    let mut minor_x = w.xm;
    let mut y = w.yh;
    let mut section: u8 = 0;
    loop
        invariant
            w.matches(e, c),
            t == blend_target(*state),
            t.base == base && t.stride == stride_pixels && t.size == size && t.even == even
                && t.odd == value16,
            size == 2 || size == 3,
            bpp == t.bpp(),
            section == 0 || section == 1,
            -8192 <= y < 8192,
            zap_walk(e, c, t, m0, e.xh, e.xm, e.yh as int, false) == zap_walk(
                e,
                c,
                t,
                mem.bytes(),
                major_x,
                minor_x,
                y as int,
                section == 1,
            ),
            zap_walk_ok(e, c, t, m0.dom(), major_x, minor_x, y as int, section == 1),
            mem.bytes().dom() == m0.dom(),
            mem.hidden() == h0,
            forall|a: u32| #[trigger] mem.hidden_index(a) == old(mem).hidden_index(a),
        ensures
            mem.bytes() == zap_walk(e, c, t, m0, e.xh, e.xm, e.yh as int, false),
            mem.hidden() == h0,
            forall|a: u32| #[trigger] mem.hidden_index(a) == old(mem).hidden_index(a),
        decreases 1 - section, 32768 - y,
    {
        // Two sections: the minor side walks xm/dm until ym, then restarts at xl/dl until yl
        let (y_target, minor_inc) = if section == 0 {
            (w.ym, w.dm)
        } else {
            (w.yl, w.dl)
        };
        if y >= y_target {
            if section == 1 {
                assert(zap_walk(e, c, t, mem.bytes(), major_x, minor_x, y as int, true)
                    == mem.bytes());
                break;
            }
            section = 1;
            minor_x = w.xl;
            continue;
        }
        if y >= w.sc_bottom {
            assert(zap_walk(e, c, t, mem.bytes(), major_x, minor_x, y as int, section == 1)
                == mem.bytes());
            break;
        }
        let ghost before = mem.bytes();
        proof {
            lemma_i32_bits(y, 0);
        }
        // Only each pixel row's top subpixel line determines the painted pixels
        if (y & 3i32) == 0 && (y >> 2u32) >= w.first_pixel_y {
            let (left, right) = if w.right_major {
                (major_x, minor_x)
            } else {
                (minor_x, major_x)
            };
            if right >= left {
                // A pixel is painted iff its top-left subpixel is inside the span
                let (px_start, px_end) = span_bounds(
                    left,
                    right,
                    w.first_pixel_x,
                    w.sc_right,
                    Ghost(c),
                );
                let py = (y >> 2u32) as u32;
                if px_start <= px_end {
                    assert(t.pixel_ok(m0.dom(), py as int, px_start as int));
                    let row = row_address(base, stride_pixels, py, bpp);
                    put_span(
                        mem,
                        row,
                        px_start,
                        px_end,
                        size,
                        even,
                        value16,
                        Ghost(t),
                        Ghost(py as int),
                    );
                }
            }
        }
        assert(mem.bytes() == zap_line(e, c, t, before, major_x, minor_x, y as int));
        major_x = major_x + w.dh;
        minor_x = minor_x + minor_inc;
        y = y + 1;
    }
    true
}


/// The coverage state of the pixel row being accumulated by the clamp walker: whether a row is
/// open, its pixel row, the painted range decided by its top subpixel line, and the per-pixel
/// checkerboard sample counts.
pub struct CoverageRow {
    pub active: bool,
    pub y: int,
    pub px_start: int,
    pub px_end: int,
    pub cov: Seq<int>,
}

/// A fresh row: nothing painted, all counts zero.
pub open spec fn fresh_row(y: int) -> CoverageRow {
    CoverageRow { active: true, y, px_start: 0, px_end: -1, cov: Seq::new(1024, |i: int| 0int) }
}

/// Number of integers k in [lo, hi] with k + y even (the checkerboard samples of a line).
pub open spec fn parity_count(lo: int, hi: int, y: int) -> int {
    if lo > hi {
        0
    } else {
        let first = if (lo + y) % 2 == 0 {
            lo
        } else {
            lo + 1
        };
        if first > hi {
            0
        } else {
            (hi - first) / 2 + 1
        }
    }
}

/// Checkerboard samples of pixel px covered on line y by the subpixel columns [a, b].
pub open spec fn line_count(px: int, y: int, a: int, b: int) -> int {
    parity_count(max(a, 4 * px), min(b, 4 * px + 3), y)
}

/// Sample counts after line y covers the subpixel columns [a, b].
pub open spec fn line_cov(cov: Seq<int>, y: int, a: int, b: int) -> Seq<int> {
    Seq::new(1024, |px: int| cov[px] + line_count(px, y, a, b))
}

/// First covered subpixel column of a line: a column is covered iff it lies at or right of the
/// edge (rounding up at subpixel precision), clipped to the scissor left.
pub open spec fn sample_start(left: i32, c: TriClip) -> int {
    max((left.wrapping_add(0xFFFFi32) >> 16u32) as int, c.first_pixel_x * 4)
}

/// Last covered subpixel column of a line (the right edge minus 2.0 subpixel units), clipped to
/// the scissor right.
pub open spec fn sample_end(right: i32, c: TriClip) -> int {
    min((right.wrapping_sub(8i32) >> 16u32) as int, c.right - 1)
}

/// Alpha byte for a sample sum: coverage-minus-one, `(sum - 1) << 5`.
pub open spec fn clamp_alpha_of(sum: int) -> u32 {
    ((sum - 1) * 32) as u32
}

/// The 32bpp pixel written for a pixel with the given sample count (clamped to 8).
pub open spec fn clamp_pixel(blend: u32, count: int) -> u32 {
    crate::raster::blend32(blend, clamp_alpha_of(min(count, 8)))
}

/// Memory after flushing pixels 0..n of a coverage row: in ascending x, every pixel with a
/// nonzero count inside the painted range gets the blend color with its coverage alpha.
pub open spec fn flush_upto(
    t: PixelTarget,
    m: Map<u32, u8>,
    blend: u32,
    row: CoverageRow,
    n: int,
) -> Map<u32, u8>
    decreases n,
{
    if n <= 0 {
        m
    } else {
        let m1 = flush_upto(t, m, blend, row, n - 1);
        let x = n - 1;
        if row.cov[x] > 0 && row.px_start <= x <= row.px_end {
            crate::rdram::store32(m1, t.pixel_addr(row.y, x) as u32, clamp_pixel(blend, row.cov[x]))
        } else {
            m1
        }
    }
}

pub open spec fn flush_row(t: PixelTarget, m: Map<u32, u8>, blend: u32, row: CoverageRow) -> Map<
    u32,
    u8,
> {
    if row.active {
        flush_upto(t, m, blend, row, 1024)
    } else {
        m
    }
}

/// Flushing the row computes its start address without overflow and writes only accessible
/// pixels.
pub open spec fn flush_ok(t: PixelTarget, dom: Set<u32>, row: CoverageRow) -> bool {
    row.active ==> {
        &&& t.row_fits(row.y)
        &&& forall|x: int|
            0 <= x < 1024 && row.cov[x] > 0 && row.px_start <= x <= row.px_end
                ==> #[trigger] t.pixel_ok(dom, row.y, x)
    }
}

/// Coverage-minus-one, from the checkerboard sample sum (1..=8).
fn clamp_alpha(sum: u32) -> (r: u32)
    requires
        1 <= sum <= 8,
    ensures
        r == clamp_alpha_of(sum as int),
{
    let below = sum - 1;
    assert(below <= 7 ==> below << 5u32 == below * 32) by (bit_vector);
    below << 5u32
}

/// Writes the finished coverage row and clears its counts.
fn flush_coverage_row<R: Rdram>(
    mem: &mut R,
    coverage: &mut Vec<u8>,
    row_y: i32,
    px_start: i32,
    px_end: i32,
    base: u32,
    stride_pixels: u32,
    rgb: (u32, u32, u32),
    Ghost(t): Ghost<PixelTarget>,
    Ghost(blend): Ghost<u32>,
    Ghost(row): Ghost<CoverageRow>,
)
    requires
        t.base == base && t.stride == stride_pixels && t.size == 3,
        rgb == (blend >> 24u32, (blend >> 16u32) & 0xFFu32, (blend >> 8u32) & 0xFFu32),
        row.active && row.y == row_y as int && row.px_start == px_start as int && row.px_end
            == px_end as int,
        old(coverage)@.len() == 1024,
        forall|x: int| 0 <= x < 1024 ==> #[trigger] old(coverage)@[x] as int == row.cov[x],
        row.cov.len() == 1024,
        flush_ok(t, old(mem).bytes().dom(), row),
    ensures
        final(mem).bytes() == flush_row(t, old(mem).bytes(), blend, row),
        final(mem).bytes().dom() == old(mem).bytes().dom(),
        final(coverage)@.len() == 1024,
        forall|x: int| 0 <= x < 1024 ==> #[trigger] final(coverage)@[x] == 0,
        final(mem).hidden() == old(mem).hidden(),
        forall|a: u32| #[trigger] final(mem).hidden_index(a) == old(mem).hidden_index(a),
{
    let (r, g, b) = rgb;
    let ghost m0 = mem.bytes();
    let ghost h0 = mem.hidden();
    let row_addr = row_address(base, stride_pixels, row_y as u32, 4);
    let mut x: usize = 0;
    while x < 1024
        invariant
            t.base == base && t.stride == stride_pixels && t.size == 3,
            rgb == (r, g, b),
            r == blend >> 24u32 && g == (blend >> 16u32) & 0xFFu32 && b == (blend >> 8u32) & 0xFFu32,
            row.active && row.y == row_y as int && row.px_start == px_start as int && row.px_end
                == px_end as int,
            row_addr == t.row_addr(row_y as int),
            row.cov.len() == 1024,
            flush_ok(t, m0.dom(), row),
            x <= 1024,
            coverage@.len() == 1024,
            forall|i: int| x <= i < 1024 ==> #[trigger] coverage@[i] as int == row.cov[i],
            forall|i: int| 0 <= i < x ==> #[trigger] coverage@[i] == 0,
            mem.bytes() == flush_upto(t, m0, blend, row, x as int),
            mem.bytes().dom() == m0.dom(),
            mem.hidden() == h0,
            forall|a: u32| #[trigger] mem.hidden_index(a) == old(mem).hidden_index(a),
        decreases 1024 - x,
    {
        let count = coverage[x];
        if count > 0 {
            if px_start <= x as i32 && x as i32 <= px_end {
                let ghost mb = mem.bytes();
                assert(t.pixel_ok(m0.dom(), row_y as int, x as int));
                let ghost a = t.pixel_addr(row_y as int, x as int);
                assert(mb.dom().contains((a + 0) as u32));
                assert(mb.dom().contains((a + 1) as u32));
                assert(mb.dom().contains((a + 2) as u32));
                assert(mb.dom().contains((a + 3) as u32));
                let clamped = if count < 8 {
                    count
                } else {
                    8
                };
                let alpha = clamp_alpha(clamped as u32);
                let value = (r << 24u32) | (g << 16u32) | (b << 8u32) | alpha;
                mem.write_u32(row_addr + (x as u32) * 4, value);
                assert(mem.bytes().dom() =~= mb.dom());
            }
            coverage.set(x, 0);
        }
        x += 1;
    }
}


proof fn lemma_line_count_bounds(px: int, y: int, a: int, b: int)
    ensures
        0 <= line_count(px, y, a, b) <= 2,
{
}

proof fn lemma_line_count_step(px: int, y: int, a: int, sx: int)
    requires
        a <= sx,
    ensures
        line_count(px, y, a, sx) == line_count(px, y, a, sx - 1) + if sx / 4 == px && (sx + y) % 2
            == 0 {
            1int
        } else {
            0int
        },
{
}



/// The first subpixel line that produces coverage: yh rounded up to a whole pixel row (the
/// partially covered top pixel row of a fractional yh produces no coverage).
pub open spec fn clamp_y_start(e: TriEdges) -> int {
    ((e.yh + 3) / 4) * 4
}

/// Line y contributes to the coverage rows.
pub open spec fn clamp_line_sampled(e: TriEdges, c: TriClip, y: int) -> bool {
    y >= clamp_y_start(e) && y / 4 >= c.first_pixel_y
}

/// Line y moves the walker to a new pixel row, flushing the open one.
pub open spec fn clamp_row_switch(row: CoverageRow, y: int) -> bool {
    !row.active || y / 4 != row.y
}

/// The coverage row after line y: the row's top subpixel line decides the painted range, and
/// every line adds its checkerboard samples.
pub open spec fn clamp_line(
    e: TriEdges,
    c: TriClip,
    row: CoverageRow,
    major: i32,
    minor: i32,
    y: int,
) -> CoverageRow {
    let (l, r) = (left_edge(e, major, minor), right_edge(e, major, minor));
    if r >= l {
        let (ps, pe) = if y % 4 == 0 {
            (span_start(l, c), span_end(r, c))
        } else {
            (row.px_start, row.px_end)
        };
        CoverageRow {
            active: row.active,
            y: row.y,
            px_start: ps,
            px_end: pe,
            cov: line_cov(row.cov, y, sample_start(l, c), sample_end(r, c)),
        }
    } else {
        row
    }
}

/// The row before a sampled line's samples are added: a new row if the line starts one.
pub open spec fn clamp_row_for(row: CoverageRow, y: int) -> CoverageRow {
    if clamp_row_switch(row, y) {
        fresh_row(y / 4)
    } else {
        row
    }
}

/// Memory after walking a triangle in coverage mode clamp, from edge positions (major, minor)
/// on subpixel line y with the given open coverage row, including the final flush.
pub open spec fn clamp_walk(
    e: TriEdges,
    c: TriClip,
    t: PixelTarget,
    blend: u32,
    m: Map<u32, u8>,
    row: CoverageRow,
    major: i32,
    minor: i32,
    y: int,
    second: bool,
) -> Map<u32, u8>
    decreases (if second {
        0int
    } else {
        1int
    }), 32768 - y,
{
    if y >= section_end(e, second) {
        if second {
            flush_row(t, m, blend, row)
        } else {
            clamp_walk(e, c, t, blend, m, row, major, e.xl, y, true)
        }
    } else if y >= c.bottom {
        flush_row(t, m, blend, row)
    } else {
        let next_major = (major + e.dh) as i32;
        let next_minor = (minor + minor_step(e, second)) as i32;
        if clamp_line_sampled(e, c, y) {
            let m1 = if clamp_row_switch(row, y) {
                flush_row(t, m, blend, row)
            } else {
                m
            };
            clamp_walk(
                e,
                c,
                t,
                blend,
                m1,
                clamp_line(e, c, clamp_row_for(row, y), major, minor, y),
                next_major,
                next_minor,
                y + 1,
                second,
            )
        } else {
            clamp_walk(e, c, t, blend, m, row, next_major, next_minor, y + 1, second)
        }
    }
}

/// The clamp walk from this point stores only to accessible memory and never overflows an edge
/// accumulator or a row address.
pub open spec fn clamp_walk_ok(
    e: TriEdges,
    c: TriClip,
    t: PixelTarget,
    dom: Set<u32>,
    row: CoverageRow,
    major: i32,
    minor: i32,
    y: int,
    second: bool,
) -> bool
    decreases (if second {
        0int
    } else {
        1int
    }), 32768 - y,
{
    if y >= section_end(e, second) {
        if second {
            flush_ok(t, dom, row)
        } else {
            clamp_walk_ok(e, c, t, dom, row, major, e.xl, y, true)
        }
    } else if y >= c.bottom {
        flush_ok(t, dom, row)
    } else {
        let next_major = (major + e.dh) as i32;
        let next_minor = (minor + minor_step(e, second)) as i32;
        &&& steps_fit(e, major, minor, second)
        &&& if clamp_line_sampled(e, c, y) {
            &&& (clamp_row_switch(row, y) ==> flush_ok(t, dom, row))
            &&& clamp_walk_ok(
                e,
                c,
                t,
                dom,
                clamp_line(e, c, clamp_row_for(row, y), major, minor, y),
                next_major,
                next_minor,
                y + 1,
                second,
            )
        } else {
            clamp_walk_ok(e, c, t, dom, row, next_major, next_minor, y + 1, second)
        }
    }
}

/// No row open yet.
pub open spec fn no_row() -> CoverageRow {
    CoverageRow { active: false, y: 0, px_start: 0, px_end: -1, cov: Seq::new(1024, |i: int| 0int) }
}


/// The open coverage row lies inside the scissor: its pixel row is one the scissor lets a
/// triangle paint, and its painted range is empty or within the scissored columns.
pub open spec fn row_in_scissor(row: CoverageRow, c: TriClip) -> bool {
    row.active ==> {
        &&& row.y >= c.first_pixel_y
        &&& 4 * row.y < c.bottom
        &&& row.px_start > row.px_end || (c.first_pixel_x <= row.px_start && row.px_end <= (c.right
            - 1) / 4)
    }
}

proof fn lemma_flush_upto_frame(
    t: PixelTarget,
    c: TriClip,
    dom: Set<u32>,
    m: Map<u32, u8>,
    blend: u32,
    row: CoverageRow,
    n: int,
    a: u32,
)
    requires
        t.size != 2,
        row.active,
        flush_ok(t, dom, row),
        row_in_scissor(row, c),
        outside_scissor_pixels(t, c, a),
        n <= 1024,
    ensures
        flush_upto(t, m, blend, row, n)[a] == m[a],
    decreases n,
{
    if n > 0 {
        lemma_flush_upto_frame(t, c, dom, m, blend, row, n - 1, a);
        let x = n - 1;
        if row.cov[x] > 0 && row.px_start <= x <= row.px_end {
            assert(t.pixel_ok(dom, row.y, x));
            assert(outside_pixel(t, a, row.y, x));
            store32_frame(
                flush_upto(t, m, blend, row, n - 1),
                t.pixel_addr(row.y, x) as u32,
                clamp_pixel(blend, row.cov[x]),
                a,
            );
        }
    }
}

proof fn lemma_flush_row_frame(
    t: PixelTarget,
    dom: Set<u32>,
    m: Map<u32, u8>,
    blend: u32,
    row: CoverageRow,
    n: int,
    a: u32,
)
    requires
        t.size != 2,
        row.active,
        flush_ok(t, dom, row),
        forall|x: int| row.px_start <= x <= row.px_end ==> #[trigger] outside_pixel(t, a, row.y, x),
        n <= 1024,
    ensures
        flush_upto(t, m, blend, row, n)[a] == m[a],
    decreases n,
{
    if n > 0 {
        lemma_flush_row_frame(t, dom, m, blend, row, n - 1, a);
        let x = n - 1;
        if row.cov[x] > 0 && row.px_start <= x <= row.px_end {
            assert(t.pixel_ok(dom, row.y, x));
            assert(outside_pixel(t, a, row.y, x));
            store32_frame(
                flush_upto(t, m, blend, row, n - 1),
                t.pixel_addr(row.y, x) as u32,
                clamp_pixel(blend, row.cov[x]),
                a,
            );
        }
    }
}

/// The clamp walk writes nothing outside the pixels its rows paint: those the walk's span
/// rule gives from the first whole covered row on, and those of the open row.
proof fn lemma_clamp_walk_frame(
    e: TriEdges,
    c: TriClip,
    t: PixelTarget,
    dom: Set<u32>,
    blend: u32,
    m: Map<u32, u8>,
    row: CoverageRow,
    major: i32,
    minor: i32,
    y: int,
    second: bool,
    a: u32,
)
    requires
        t.size != 2,
        clamp_walk_ok(e, c, t, dom, row, major, minor, y, second),
        forall|px: int, py: int|
            painted_from(e, c, major, minor, y, second, px, py) && 4 * py >= clamp_y_start(e)
                ==> #[trigger] outside_pixel(t, a, py, px),
        row.active ==> forall|x: int|
            row.px_start <= x <= row.px_end ==> #[trigger] outside_pixel(t, a, row.y, x),
    ensures
        clamp_walk(e, c, t, blend, m, row, major, minor, y, second)[a] == m[a],
    decreases (if second {
        0int
    } else {
        1int
    }), 32768 - y,
{
    if y >= section_end(e, second) {
        if second {
            if row.active {
                lemma_flush_row_frame(t, dom, m, blend, row, 1024, a);
            }
        } else {
            assert forall|px: int, py: int|
                painted_from(e, c, major, e.xl, y, true, px, py) && 4 * py >= clamp_y_start(e)
                    implies #[trigger] outside_pixel(t, a, py, px) by {
                lemma_painted_switch(e, c, major, minor, y, px, py);
            }
            lemma_clamp_walk_frame(e, c, t, dom, blend, m, row, major, e.xl, y, true, a);
        }
    } else if y >= c.bottom {
        if row.active {
            lemma_flush_row_frame(t, dom, m, blend, row, 1024, a);
        }
    } else {
        let next_major = (major + e.dh) as i32;
        let next_minor = (minor + minor_step(e, second)) as i32;
        assert forall|px: int, py: int|
            painted_from(e, c, next_major, next_minor, y + 1, second, px, py) && 4 * py
                >= clamp_y_start(e) implies #[trigger] outside_pixel(t, a, py, px) by {
            lemma_painted_step(e, c, major, minor, y, second, px, py);
        }
        if clamp_line_sampled(e, c, y) {
            let m1 = if clamp_row_switch(row, y) {
                flush_row(t, m, blend, row)
            } else {
                m
            };
            if clamp_row_switch(row, y) && row.active {
                lemma_flush_row_frame(t, dom, m, blend, row, 1024, a);
            }
            let base_row = clamp_row_for(row, y);
            let next_row = clamp_line(e, c, base_row, major, minor, y);
            let (l, r) = (left_edge(e, major, minor), right_edge(e, major, minor));
            if r >= l && y % 4 == 0 {
                assert forall|x: int|
                    next_row.px_start <= x <= next_row.px_end implies #[trigger] outside_pixel(
                    t,
                    a,
                    next_row.y,
                    x,
                ) by {
                    assert(4 * (y / 4) == y);
                    lemma_painted_step(e, c, major, minor, y, second, x, y / 4);
                }
            }
            lemma_clamp_walk_frame(
                e,
                c,
                t,
                dom,
                blend,
                m1,
                next_row,
                next_major,
                next_minor,
                y + 1,
                second,
                a,
            );
        } else {
            lemma_clamp_walk_frame(
                e,
                c,
                t,
                dom,
                blend,
                m,
                row,
                next_major,
                next_minor,
                y + 1,
                second,
                a,
            );
        }
    }
}

/// The pixels a clamp triangle may write, in closed form: those of the span rule of
/// `zap_painted`, with the major edge one step ahead (at xh + dh * (y - yh + 1)), on the rows
/// from yh rounded up to a whole pixel row on.
pub open spec fn clamp_painted(e: TriEdges, c: TriClip, px: int, py: int) -> bool {
    &&& painted_from(e, c, e.xh.wrapping_add(e.dh), e.xm, e.yh as int, false, px, py)
    &&& 4 * py >= clamp_y_start(e)
}

/// The clamp triangle writes nothing outside the pixels of `clamp_painted` (which of them it
/// writes, and with which coverage alpha, the clamp walk states).
pub proof fn clamp_triangle_writes_only_painted(
    e: TriEdges,
    c: TriClip,
    t: PixelTarget,
    dom: Set<u32>,
    blend: u32,
    m: Map<u32, u8>,
    a: u32,
)
    requires
        t.size != 2,
        clamp_walk_ok(e, c, t, dom, no_row(), e.xh.wrapping_add(e.dh), e.xm, e.yh as int, false),
        forall|px: int, py: int| clamp_painted(e, c, px, py) ==> #[trigger] outside_pixel(t, a, py, px),
    ensures
        clamp_walk(e, c, t, blend, m, no_row(), e.xh.wrapping_add(e.dh), e.xm, e.yh as int, false)[a]
            == m[a],
{
    lemma_clamp_walk_frame(
        e,
        c,
        t,
        dom,
        blend,
        m,
        no_row(),
        e.xh.wrapping_add(e.dh),
        e.xm,
        e.yh as int,
        false,
        a,
    );
}

/// The clamp triangle stays inside the scissor: the walk, flushes included, leaves every byte
/// outside the scissored pixels unchanged.
pub proof fn clamp_walk_stays_in_scissor(
    e: TriEdges,
    c: TriClip,
    t: PixelTarget,
    dom: Set<u32>,
    blend: u32,
    m: Map<u32, u8>,
    row: CoverageRow,
    major: i32,
    minor: i32,
    y: int,
    second: bool,
    a: u32,
)
    requires
        t.size != 2,
        clamp_walk_ok(e, c, t, dom, row, major, minor, y, second),
        row_in_scissor(row, c),
        outside_scissor_pixels(t, c, a),
    ensures
        clamp_walk(e, c, t, blend, m, row, major, minor, y, second)[a] == m[a],
    decreases (if second {
        0int
    } else {
        1int
    }), 32768 - y,
{
    if y >= section_end(e, second) {
        if second {
            if row.active {
                lemma_flush_upto_frame(t, c, dom, m, blend, row, 1024, a);
            }
        } else {
            clamp_walk_stays_in_scissor(e, c, t, dom, blend, m, row, major, e.xl, y, true, a);
        }
    } else if y >= c.bottom {
        if row.active {
            lemma_flush_upto_frame(t, c, dom, m, blend, row, 1024, a);
        }
    } else {
        let next_major = (major + e.dh) as i32;
        let next_minor = (minor + minor_step(e, second)) as i32;
        if clamp_line_sampled(e, c, y) {
            let m1 = if clamp_row_switch(row, y) {
                flush_row(t, m, blend, row)
            } else {
                m
            };
            if clamp_row_switch(row, y) && row.active {
                lemma_flush_upto_frame(t, c, dom, m, blend, row, 1024, a);
            }
            let next_row = clamp_line(e, c, clamp_row_for(row, y), major, minor, y);
            assert(4 * (y / 4) <= y);
            assert(row_in_scissor(next_row, c));
            clamp_walk_stays_in_scissor(
                e,
                c,
                t,
                dom,
                blend,
                m1,
                next_row,
                next_major,
                next_minor,
                y + 1,
                second,
                a,
            );
        } else {
            clamp_walk_stays_in_scissor(
                e,
                c,
                t,
                dom,
                blend,
                m,
                row,
                next_major,
                next_minor,
                y + 1,
                second,
                a,
            );
        }
    }
}


/// The clamp walker's pipeline configuration: blender output = blend color on a 32bpp
/// framebuffer (the alpha byte carries the coverage there).
pub open spec fn clamp_applies(s: State) -> bool {
    s.spec_blender_0() == (2u32, 0u32, 1u32, 3u32) && s.spec_color_image_size() == 3
}


/// The exec coverage state agrees with the ghost row.
spec fn row_matches(
    row: CoverageRow,
    coverage: Seq<u8>,
    row_y: i32,
    row_px_start: i32,
    row_px_end: i32,
) -> bool {
    &&& coverage.len() == 1024
    &&& row.cov.len() == 1024
    &&& forall|i: int| 0 <= i < 1024 ==> #[trigger] coverage[i] as int == row.cov[i]
    &&& row.active == (row_y != i32::MIN)
    &&& row.active ==> row.y == row_y as int && row.px_start == row_px_start as int && row.px_end
        == row_px_end as int
    &&& !row.active ==> forall|i: int| 0 <= i < 1024 ==> #[trigger] row.cov[i] == 0
}

/// The counts of the open row are bounded by two samples per line walked in it.
spec fn row_bounded(row: CoverageRow, e: TriEdges, c: TriClip, y: int) -> bool {
    row.active ==> {
        &&& 0 <= row.y
        &&& row.y >= c.first_pixel_y
        &&& y >= clamp_y_start(e)
        &&& 4 * row.y <= y <= 4 * row.y + 4
        &&& forall|i: int| 0 <= i < 1024 ==> 0 <= #[trigger] row.cov[i] <= 2 * (y - 4 * row.y)
    }
}

/// Fill_Triangle in 1-cycle mode with coverage mode CLAMP: like `one_cycle_fill_triangle`, but
/// the written alpha byte carries the pixel's coverage.
/// - Which pixels are painted follows the same top-left-subpixel rule as zap: the painted range
///   comes from the row's top subpixel line, and a fractional yh skips its partial top row.
/// - The coverage is sampled on a checkerboard: of the 16 subpixels only the 8 with an even
///   (sx ^ sy) contribute, accumulated over all four subpixel lines of the row (on each line the
///   subpixel columns [left, right - 2.0 subpixel units] are covered). Memory stores the sum in
///   coverage-minus-one encoding: alpha = (sum - 1) << 5, full coverage = 0xE0.
/// - The major edge is sampled one step ahead of the minor edge.
/// - 32bpp framebuffers only; anything else returns false (unhandled).
pub fn one_cycle_fill_triangle_clamp<R: Rdram>(state: &State, mem: &mut R, cmd: &[u64]) -> (handled:
    bool)
    requires
        cmd@.len() >= 4,
        clamp_applies(*state) ==> ({
            let e = decode_edges(cmd@);
            clamp_walk_ok(
                e,
                tri_clip(*state),
                blend_target(*state),
                old(mem).bytes().dom(),
                no_row(),
                e.xh.wrapping_add(e.dh),
                e.xm,
                e.yh as int,
                false,
            )
        }),
    ensures
        handled == clamp_applies(*state),
        final(mem).bytes() == if handled {
            let e = decode_edges(cmd@);
            clamp_walk(
                e,
                tri_clip(*state),
                blend_target(*state),
                state.blend_color,
                old(mem).bytes(),
                no_row(),
                e.xh.wrapping_add(e.dh),
                e.xm,
                e.yh as int,
                false,
            )
        } else {
            old(mem).bytes()
        },
        final(mem).hidden() == old(mem).hidden(),
        forall|a: u32| #[trigger] final(mem).hidden_index(a) == old(mem).hidden_index(a),
{
    if !crate::raster::blender_outputs_blend_color(state) || state.color_image_size() != 3 {
        return false;
    }
    let w = decode_walker(state, cmd);
    let ghost e = decode_edges(cmd@);
    let ghost c = tri_clip(*state);
    let ghost t = blend_target(*state);
    // The partially covered top pixel row of a fractional yh produces no coverage
    let yh_up = w.yh + 3;
    let y_start = yh_up & !3i32;
    proof {
        lemma_i32_bits(yh_up, 0);
    }

    let blend = state.blend_color;
    let (r, g, b) = (blend >> 24u32, (blend >> 16u32) & 0xFFu32, (blend >> 8u32) & 0xFFu32);
    let base = state.color_image_addr();
    let stride_pixels = state.color_image_width() + 1;

    // Subpixel coverage counts for the current pixel row, plus the painted range determined by
    // the row's top subpixel line
    let mut coverage: Vec<u8> = vec![0u8; 1024];
    let mut row_y = i32::MIN;
    let mut row_px_start = 0i32;
    let mut row_px_end = -1i32;
    let ghost mut row = no_row();

    let ghost m0 = mem.bytes();
    let ghost h0 = mem.hidden();
    // The major edge is sampled one step ahead of the minor edge
    let mut major_x = w.xh.wrapping_add(w.dh);
    let mut minor_x = w.xm;
    let mut y = w.yh;
    let mut section: u8 = 0;
    loop
        invariant
            w.matches(e, c),
            t == blend_target(*state),
            t.base == base && t.stride == stride_pixels && t.size == 3,
            blend == state.blend_color,
            r == blend >> 24u32 && g == (blend >> 16u32) & 0xFFu32 && b == (blend >> 8u32) & 0xFFu32,
            y_start as int == clamp_y_start(e),
            section == 0 || section == 1,
            -8192 <= y < 8192,
            row_matches(row, coverage@, row_y, row_px_start, row_px_end),
            row_bounded(row, e, c, y as int),
            clamp_walk(
                e,
                c,
                t,
                blend,
                m0,
                no_row(),
                e.xh.wrapping_add(e.dh),
                e.xm,
                e.yh as int,
                false,
            ) == clamp_walk(
                e,
                c,
                t,
                blend,
                mem.bytes(),
                row,
                major_x,
                minor_x,
                y as int,
                section == 1,
            ),
            clamp_walk_ok(e, c, t, m0.dom(), row, major_x, minor_x, y as int, section == 1),
            mem.bytes().dom() == m0.dom(),
            mem.hidden() == h0,
            forall|a: u32| #[trigger] mem.hidden_index(a) == old(mem).hidden_index(a),
        ensures
            row_matches(row, coverage@, row_y, row_px_start, row_px_end),
            row_bounded(row, e, c, y as int),
            clamp_walk(
                e,
                c,
                t,
                blend,
                m0,
                no_row(),
                e.xh.wrapping_add(e.dh),
                e.xm,
                e.yh as int,
                false,
            ) == flush_row(t, mem.bytes(), blend, row),
            flush_ok(t, m0.dom(), row),
            mem.bytes().dom() == m0.dom(),
            mem.hidden() == h0,
            forall|a: u32| #[trigger] mem.hidden_index(a) == old(mem).hidden_index(a),
        decreases 1 - section, 32768 - y,
    {
        let (y_target, minor_inc) = if section == 0 {
            (w.ym, w.dm)
        } else {
            (w.yl, w.dl)
        };
        if y >= y_target {
            if section == 1 {
                break;
            }
            section = 1;
            minor_x = w.xl;
            continue;
        }
        if y >= w.sc_bottom {
            break;
        }
        proof {
            lemma_i32_bits(y, 0);
        }
        if y >= y_start && (y >> 2u32) >= w.first_pixel_y {
            let ghost row_old = row;
            if (y >> 2u32) != row_y {
                if row_y != i32::MIN {
                    flush_coverage_row(
                        mem,
                        &mut coverage,
                        row_y,
                        row_px_start,
                        row_px_end,
                        base,
                        stride_pixels,
                        (r, g, b),
                        Ghost(t),
                        Ghost(blend),
                        Ghost(row),
                    );
                }
                row_y = y >> 2u32;
                row_px_start = 0;
                row_px_end = -1;
                proof {
                    row = fresh_row(y as int / 4);
                }
            }
            assert(row == clamp_row_for(row_old, y as int));
            let ghost row_line = row;
            let (left, right) = if w.right_major {
                (major_x, minor_x)
            } else {
                (minor_x, major_x)
            };
            if right >= left {
                // The row's top subpixel line decides which pixels are painted
                if (y & 3i32) == 0 {
                    let (ps, pe) = span_bounds(left, right, w.first_pixel_x, w.sc_right, Ghost(c));
                    row_px_start = ps;
                    row_px_end = pe;
                }
                // Every line contributes its checkerboard samples to the coverage sums. A
                // subpixel column is covered iff it lies at or right of the edge, so the start
                // rounds UP at subpixel precision.
                let fx = w.first_pixel_x;
                proof {
                    lemma_i32_bits(fx, 0);
                }
                let sx_start = (left.wrapping_add(0xFFFFi32) >> 16u32).max(fx << 2u32);
                let sx_end = (right.wrapping_sub(8i32) >> 16u32).min(w.sc_right - 1);
                let mut sx = sx_start;
                while sx <= sx_end
                    invariant
                        sx_start as int == sample_start(left, c),
                        sx_end as int == sample_end(right, c),
                        0 <= sx_start,
                        sx_end < 4096,
                        sx_start <= sx,
                        sx <= sx_end + 1 || sx == sx_start,
                        row_line.cov.len() == 1024,
                        forall|i: int| 0 <= i < 1024 ==> 0 <= #[trigger] row_line.cov[i] <= 6,
                        coverage@.len() == 1024,
                        forall|i: int|
                            0 <= i < 1024 ==> #[trigger] coverage@[i] as int == row_line.cov[i]
                                + line_count(i, y as int, sx_start as int, sx - 1),
                    decreases sx_end + 1 - sx,
                {
                    let px = sx >> 2u32;
                    proof {
                        lemma_i32_bits(sx, y);
                        assert forall|i: int| 0 <= i < 1024 implies #[trigger] line_count(
                            i,
                            y as int,
                            sx_start as int,
                            sx as int,
                        ) == line_count(i, y as int, sx_start as int, sx - 1) + if sx / 4 == i
                            && (sx + y) % 2 == 0 {
                            1int
                        } else {
                            0int
                        } by {
                            lemma_line_count_step(i, y as int, sx_start as int, sx as int);
                        }
                        assert forall|i: int| 0 <= i < 1024 implies #[trigger] line_count(
                            i,
                            y as int,
                            sx_start as int,
                            sx as int,
                        ) <= 2 by {
                            lemma_line_count_bounds(i, y as int, sx_start as int, sx as int);
                        }
                    }
                    if ((sx ^ y) & 1i32) == 0 && px >= 0 && px < 1024 {
                        let count = coverage[px as usize];
                        assert(count as int == row_line.cov[px as int] + line_count(
                            px as int,
                            y as int,
                            sx_start as int,
                            sx - 1,
                        ));
                        coverage.set(px as usize, count + 1);
                    }
                    sx += 1;
                }
                proof {
                    row = CoverageRow {
                        active: row.active,
                        y: row.y,
                        px_start: row_px_start as int,
                        px_end: row_px_end as int,
                        cov: line_cov(row_line.cov, y as int, sx_start as int, sx_end as int),
                    };
                    assert forall|i: int| 0 <= i < 1024 implies #[trigger] coverage@[i] as int
                        == row.cov[i] by {
                        assert(line_count(i, y as int, sx_start as int, sx - 1) == line_count(
                            i,
                            y as int,
                            sx_start as int,
                            sx_end as int,
                        ));
                    }
                    assert forall|i: int| 0 <= i < 1024 implies 0 <= #[trigger] row.cov[i] <= 2
                        * (y + 1 - 4 * row.y) by {
                        lemma_line_count_bounds(i, y as int, sx_start as int, sx_end as int);
                    }
                }
            }
            assert(row == clamp_line(e, c, row_line, major_x, minor_x, y as int));
        }
        major_x = major_x + w.dh;
        minor_x = minor_x + minor_inc;
        y = y + 1;
    }
    if row_y != i32::MIN {
        flush_coverage_row(
            mem,
            &mut coverage,
            row_y,
            row_px_start,
            row_px_end,
            base,
            stride_pixels,
            (r, g, b),
            Ghost(t),
            Ghost(blend),
            Ghost(row),
        );
    }
    true
}

} // verus!
