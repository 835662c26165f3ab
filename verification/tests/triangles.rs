use n64_systemtest::rdp_assembler::{RDPAssembler, TriangleBase, I12_2, I16_16};
use n64_systemtest::state::State;
use n64_systemtest::triangle::{one_cycle_fill_triangle, one_cycle_fill_triangle_clamp, sign_extend_14};
use n64_systemtest::SliceRdram;

const WIDTH: usize = 32;
const HEIGHT: usize = 16;
const BASE: u32 = 0x4000;
const BLEND: u32 = 0xFF80_4000;

fn state(size: u64, coverage_mode: u64) -> State {
    State {
        other_modes: 0x804C_0000 | (coverage_mode << 8),
        scissor: (128 << 12) | 64,
        fill_color: 0,
        blend_color: BLEND,
        color_image: (size << 51) | (((WIDTH - 1) as u64) << 32) | BASE as u64,
    }
}

/// A triangle command whose left edge is x = left and right edge x = right (16.16, no slope),
/// from y = yh to y = yl (12.2).
fn trapezoid(left: u32, right: u32, yh: u32, yl: u32) -> Vec<u64> {
    let base = TriangleBase::new(
        false,
        0,
        0,
        I12_2::new_with_masked_value(yl),
        I12_2::new_with_masked_value(yl),
        I12_2::new_with_masked_value(yh),
        I16_16::new_with_masked_value(left),
        I16_16::new_with_masked_value(left),
        I16_16::new_with_masked_value(right),
        I16_16::new_with_masked_value(0),
        I16_16::new_with_masked_value(0),
        I16_16::new_with_masked_value(0),
    );
    let mut stream = RDPAssembler::new();
    stream.filled_triangle(&base);
    stream.words().clone()
}

fn pixel16(bytes: &[u8], x: usize, y: usize) -> u16 {
    let i = (y * WIDTH + x) * 2;
    ((bytes[i] as u16) << 8) | bytes[i + 1] as u16
}

fn pixel32(bytes: &[u8], x: usize, y: usize) -> u32 {
    let i = (y * WIDTH + x) * 4;
    u32::from_be_bytes([bytes[i], bytes[i + 1], bytes[i + 2], bytes[i + 3]])
}

#[test]
fn sign_extension_of_14_bit_values() {
    assert_eq!(sign_extend_14(0x1FFF), 0x1FFF);
    assert_eq!(sign_extend_14(0x2000), -0x2000);
    assert_eq!(sign_extend_14(0x3FFF), -1);
    assert_eq!(sign_extend_14(0xC004), 4);
}

#[test]
fn zap_triangle_paints_top_left_covered_pixels_16bpp() {
    let cmd = trapezoid(4 << 16, 10 << 16, 2 * 4, 6 * 4);
    let mut bytes = vec![0u8; WIDTH * HEIGHT * 2];
    let mut hidden = vec![0u8; bytes.len() / 2];
    let handled = {
        let mut mem = SliceRdram::new(BASE, &mut bytes, &mut hidden);
        one_cycle_fill_triangle(&state(2, 2), &mut mem, &cmd)
    };
    assert!(handled);
    for y in 0..HEIGHT {
        for x in 0..WIDTH {
            let painted = (4..=9).contains(&x) && (2..=5).contains(&y);
            assert_eq!(pixel16(&bytes, x, y), if painted { 0xFC11 } else { 0 }, "({}, {})", x, y);
        }
    }
}

#[test]
fn zap_triangle_fractional_edges_32bpp() {
    // left 4.5 rounds up to pixel 5; right 9.5 still paints pixel 9; yh 2.25 skips row 2
    let cmd = trapezoid(0x4_8000, 0x9_8000, 2 * 4 + 1, 6 * 4);
    let mut bytes = vec![0u8; WIDTH * HEIGHT * 4];
    let mut hidden = vec![0u8; bytes.len() / 2];
    let handled = {
        let mut mem = SliceRdram::new(BASE, &mut bytes, &mut hidden);
        one_cycle_fill_triangle(&state(3, 2), &mut mem, &cmd)
    };
    assert!(handled);
    for y in 0..HEIGHT {
        for x in 0..WIDTH {
            let painted = (5..=9).contains(&x) && (3..=5).contains(&y);
            assert_eq!(pixel32(&bytes, x, y), if painted { 0xFF80_40E0 } else { 0 });
        }
    }
}

#[test]
fn zap_triangle_needs_zap_coverage() {
    let cmd = trapezoid(4 << 16, 10 << 16, 2 * 4, 6 * 4);
    let mut bytes = vec![0u8; WIDTH * HEIGHT * 2];
    let mut hidden = vec![0u8; bytes.len() / 2];
    let handled = {
        let mut mem = SliceRdram::new(BASE, &mut bytes, &mut hidden);
        one_cycle_fill_triangle(&state(2, 0), &mut mem, &cmd)
    };
    assert!(!handled);
    assert!(bytes.iter().all(|b| *b == 0));
}

#[test]
fn clamp_triangle_full_coverage_alpha() {
    let cmd = trapezoid(4 << 16, 10 << 16, 2 * 4, 6 * 4);
    let mut bytes = vec![0u8; WIDTH * HEIGHT * 4];
    let mut hidden = vec![0u8; bytes.len() / 2];
    let handled = {
        let mut mem = SliceRdram::new(BASE, &mut bytes, &mut hidden);
        one_cycle_fill_triangle_clamp(&state(3, 0), &mut mem, &cmd)
    };
    assert!(handled);
    for y in 0..HEIGHT {
        for x in 0..WIDTH {
            let painted = (4..=9).contains(&x) && (2..=5).contains(&y);
            assert_eq!(pixel32(&bytes, x, y), if painted { 0xFF80_40E0 } else { 0 }, "({}, {})", x, y);
        }
    }
}

#[test]
fn clamp_triangle_partial_right_column() {
    // right edge at 9.5: pixel 9 has the two left subpixel columns on four lines, half of them
    // on the checkerboard: 4 samples, alpha (4 - 1) << 5
    let cmd = trapezoid(4 << 16, 0x9_8000, 2 * 4, 6 * 4);
    let mut bytes = vec![0u8; WIDTH * HEIGHT * 4];
    let mut hidden = vec![0u8; bytes.len() / 2];
    {
        let mut mem = SliceRdram::new(BASE, &mut bytes, &mut hidden);
        assert!(one_cycle_fill_triangle_clamp(&state(3, 0), &mut mem, &cmd));
    }
    for y in 2..=5 {
        assert_eq!(pixel32(&bytes, 8, y), 0xFF80_40E0);
        assert_eq!(pixel32(&bytes, 9, y), 0xFF80_4060);
        assert_eq!(pixel32(&bytes, 10, y), 0);
    }
}

#[test]
fn clamp_triangle_needs_32bpp() {
    let cmd = trapezoid(4 << 16, 10 << 16, 2 * 4, 6 * 4);
    let mut bytes = vec![0u8; WIDTH * HEIGHT * 2];
    let mut hidden = vec![0u8; bytes.len() / 2];
    let handled = {
        let mut mem = SliceRdram::new(BASE, &mut bytes, &mut hidden);
        one_cycle_fill_triangle_clamp(&state(2, 0), &mut mem, &cmd)
    };
    assert!(!handled);
    assert!(bytes.iter().all(|b| *b == 0));
}

#[test]
fn triangles_stay_inside_the_scissor() {
    // a wide triangle clipped by the scissor (left 2.25, top 1.5, right 8.5, bottom 4.25)
    let cmd = trapezoid(0, 20 << 16, 0, 12 * 4);
    let scissor = (9u64 << 44) | (6u64 << 32) | (34u64 << 12) | 17;
    for (clamp, size) in [(false, 2u64), (false, 3), (true, 3)] {
        let mut s = state(size, 2);
        s.scissor = scissor;
        let bpp = if size == 2 { 2 } else { 4 };
        let mut bytes = vec![0u8; WIDTH * HEIGHT * bpp];
        let mut hidden = vec![0u8; bytes.len() / 2];
        {
            let mut mem = SliceRdram::new(BASE, &mut bytes, &mut hidden);
            let handled = if clamp {
                one_cycle_fill_triangle_clamp(&s, &mut mem, &cmd)
            } else {
                one_cycle_fill_triangle(&s, &mut mem, &cmd)
            };
            assert!(handled);
        }
        for y in 0..HEIGHT {
            for x in 0..WIDTH {
                // first whole pixel column 3, first whole row 2; last column holds subpixel 33,
                // last row's top subpixel line 16 lies above 17
                let inside = (3..=8).contains(&x) && (2..=4).contains(&y);
                let i = (y * WIDTH + x) * bpp;
                let written = bytes[i..i + bpp].iter().any(|b| *b != 0);
                assert_eq!(written, inside, "({}, {}) clamp {} size {}", x, y, clamp, size);
            }
        }
    }
}

#[allow(clippy::too_many_arguments)]
fn triangle_cmd(right_major: bool, yh: i32, ym: i32, yl: i32, xh: i32, dh: i32, xm: i32, dm: i32, xl: i32, dl: i32) -> Vec<u64> {
    let base = TriangleBase::new(
        right_major,
        0,
        0,
        I12_2::new_with_masked_value(yl as u32),
        I12_2::new_with_masked_value(ym as u32),
        I12_2::new_with_masked_value(yh as u32),
        I16_16::new_with_masked_value(xl as u32),
        I16_16::new_with_masked_value(xm as u32),
        I16_16::new_with_masked_value(xh as u32),
        I16_16::new_with_masked_value(dl as u32),
        I16_16::new_with_masked_value(dm as u32),
        I16_16::new_with_masked_value(dh as u32),
    );
    let mut stream = RDPAssembler::new();
    stream.filled_triangle(&base);
    stream.words().clone()
}

#[test]
fn zap_triangle_matches_closed_form() {
    // left (minor) edge: from 18.0 stepping -1/4 pixel per subpixel line until ym = 6.0, then
    // from 12.0 stepping +1/4; right (major) edge from 20.0 stepping +1/8; yh = 1.5, yl = 14.0
    let (yh, ym, yl) = (6i64, 24i64, 56i64);
    let (xh, dh) = (20i64 << 16, 0x2000i64);
    let (xm, dm) = (18i64 << 16, -0x1_0000i64);
    let (xl, dl) = (12i64 << 16, 0x1_0000i64);
    let cmd = triangle_cmd(false, yh as i32, ym as i32, yl as i32, xh as i32, dh as i32, xm as i32, dm as i32, xl as i32, dl as i32);
    let mut bytes = vec![0u8; WIDTH * HEIGHT * 2];
    let mut hidden = vec![0u8; bytes.len() / 2];
    {
        let mut mem = SliceRdram::new(BASE, &mut bytes, &mut hidden);
        assert!(one_cycle_fill_triangle(&state(2, 2), &mut mem, &cmd));
    }
    let mut painted_any = false;
    for py in 0..HEIGHT as i64 {
        let y = 4 * py;
        // major at xh + dh * (y - yh); minor at xm + dm * (y - yh) above ym, else
        // xl + dl * (y - max(yh, ym)); both in the edge domain (16.16 shifted by 2)
        let reached = y >= yh && (y < ym || y < yl) && y < 64;
        let major = (xh << 2) + dh * (y - yh);
        let minor = if y < ym { (xm << 2) + dm * (y - yh) } else { (xl << 2) + dl * (y - yh.max(ym)) };
        let (left, right) = (minor, major);
        let start = ((left + 0x3FFFF) >> 18).max(0);
        let end = ((right - 8) >> 16).min(127) >> 2;
        for px in 0..WIDTH as i64 {
            let painted = reached && right >= left && start <= px && px <= end;
            painted_any |= painted;
            let value = pixel16(&bytes, px as usize, py as usize);
            assert_eq!(value, if painted { 0xFC11 } else { 0 }, "({}, {})", px, py);
        }
    }
    assert!(painted_any);
}

#[test]
fn clamp_triangle_writes_within_closed_form() {
    let (yh, ym, yl) = (6i64, 24i64, 56i64);
    let (xh, dh) = (20i64 << 16, 0x2000i64);
    let (xm, dm) = (18i64 << 16, -0x1_0000i64);
    let (xl, dl) = (12i64 << 16, 0x1_0000i64);
    let cmd = triangle_cmd(false, yh as i32, ym as i32, yl as i32, xh as i32, dh as i32, xm as i32, dm as i32, xl as i32, dl as i32);
    let mut bytes = vec![0u8; WIDTH * HEIGHT * 4];
    let mut hidden = vec![0u8; bytes.len() / 2];
    {
        let mut mem = SliceRdram::new(BASE, &mut bytes, &mut hidden);
        assert!(one_cycle_fill_triangle_clamp(&state(3, 0), &mut mem, &cmd));
    }
    let y_start = ((yh + 3) / 4) * 4;
    let mut written_any = false;
    for py in 0..HEIGHT as i64 {
        let y = 4 * py;
        // the major edge is sampled one step ahead
        let reached = y >= yh && y >= y_start && (y < ym || y < yl) && y < 64;
        let major = (xh << 2) + dh * (y - yh + 1);
        let minor = if y < ym { (xm << 2) + dm * (y - yh) } else { (xl << 2) + dl * (y - yh.max(ym)) };
        let start = ((minor + 0x3FFFF) >> 18).max(0);
        let end = ((major - 8) >> 16).min(127) >> 2;
        for px in 0..WIDTH as i64 {
            let allowed = reached && major >= minor && start <= px && px <= end;
            let written = pixel32(&bytes, px as usize, py as usize) != 0;
            written_any |= written;
            assert!(!written || allowed, "({}, {})", px, py);
        }
    }
    assert!(written_any);
}
