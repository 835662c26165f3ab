use n64_systemtest::rdp_assembler::{
    Format, Othermode, PixelSize, RDPAssembler, RDPRectangle, ARGB8888, RGBA5551, U10_2,
};
use n64_systemtest::uint::{U12, U5};
use n64_systemtest::{Rdram, SliceRdram, SoftRdp};

const WIDTH: usize = 32;
const HEIGHT: usize = 16;
const GUARD_ROWS: usize = 2;
const BASE: u32 = 0x1000;

/// Other modes word: cycle type fill.
const OTHERMODE_FILL: u64 = 0x0030_0000_0000_0000;
/// Other modes word: 1-cycle, blender P=blend color, A=0, M=1, B=3 (output = blend color),
/// coverage mode zap.
const OTHERMODE_ONE_CYCLE_BLEND: u64 = 0x804C_0200;

fn rect(left: u32, top: u32, right: u32, bottom: u32) -> RDPRectangle {
    RDPRectangle::new(
        U10_2::new_with_masked_value(left),
        U10_2::new_with_masked_value(top),
        U10_2::new_with_masked_value(right),
        U10_2::new_with_masked_value(bottom),
    )
}

/// Builds the stream that sets up a WIDTHxHEIGHT framebuffer at BASE and draws one rectangle.
fn rectangle_stream(
    othermode: u64,
    pixel_size: PixelSize,
    color: impl Fn(&mut RDPAssembler),
    r: (u32, u32, u32, u32),
    scissor: (u32, u32, u32, u32),
) -> Vec<u64> {
    let mut stream = RDPAssembler::new();
    stream.set_framebuffer_image(
        Format::RGBA,
        pixel_size,
        U12::new((WIDTH - 1) as u16),
        BASE as usize,
    );
    stream.set_scissor(&rect(scissor.0, scissor.1, scissor.2, scissor.3));
    stream.set_othermode(Othermode::new_with_raw_value(othermode));
    color(&mut stream);
    stream.filled_rectangle(&rect(r.0, r.1, r.2, r.3));
    stream.sync_full();
    stream.words().clone()
}

fn run(stream: &[u64], bytes_per_pixel: usize) -> (Vec<u8>, Vec<u8>, u32) {
    let mut bytes = vec![0u8; WIDTH * (HEIGHT + GUARD_ROWS) * bytes_per_pixel];
    let mut hidden = vec![0u8; bytes.len() / 2];
    let mut rdp = SoftRdp::new();
    {
        let mut mem = SliceRdram::new(BASE, &mut bytes, &mut hidden);
        rdp.run(stream, &mut mem);
    }
    (bytes, hidden, rdp.unhandled)
}

fn pixel16(bytes: &[u8], x: usize, y: usize) -> u16 {
    let i = (y * WIDTH + x) * 2;
    ((bytes[i] as u16) << 8) | bytes[i + 1] as u16
}

fn pixel32(bytes: &[u8], x: usize, y: usize) -> u32 {
    let i = (y * WIDTH + x) * 4;
    u32::from_be_bytes([bytes[i], bytes[i + 1], bytes[i + 2], bytes[i + 3]])
}

fn fill16(stream: &mut RDPAssembler) {
    // even pixels take color2 (bits 31..=16), odd pixels color1 (bits 15..=0)
    let odd = RGBA5551::new(U5::new(0x1F), U5::new(0), U5::new(0), true);
    let even = RGBA5551::new(U5::new(0), U5::new(0x1F), U5::new(0), true);
    stream.set_fillcolor16(odd, even);
}

const ODD16: u16 = 0xF801;
const EVEN16: u16 = 0x07C1;

/// The pixels x0..=x1 of the rows y0..=y1 painted at linear pixel index y * WIDTH + x (a pixel
/// past a row's end lands in the next row).
fn expect_painted16(bytes: &[u8], x0: usize, x1: usize, y0: usize, y1: usize) {
    let mut expected = vec![0u16; WIDTH * (HEIGHT + GUARD_ROWS)];
    for y in y0..=y1 {
        for x in x0..=x1 {
            expected[y * WIDTH + x] = if x % 2 == 0 { EVEN16 } else { ODD16 };
        }
    }
    for i in 0..expected.len() {
        assert_eq!(pixel16(bytes, i % WIDTH, i / WIDTH), expected[i], "pixel index {}", i);
    }
}

#[test]
fn fill_rectangle_16bpp_interior() {
    let s = rectangle_stream(
        OTHERMODE_FILL,
        PixelSize::Bits16,
        fill16,
        (3 * 4, 2 * 4, 13 * 4, 9 * 4),
        (0, 0, 128, 64),
    );
    let (bytes, hidden, unhandled) = run(&s, 2);
    assert_eq!(unhandled, 0);
    // fill mode paints the xl and yl pixels too
    expect_painted16(&bytes, 3, 13, 2, 9);
    assert_eq!(pixel16(&bytes, 3, 2), ODD16);
    assert_eq!(pixel16(&bytes, 4, 2), EVEN16);
    assert_eq!(pixel16(&bytes, 14, 2), 0);
    assert!(hidden.iter().all(|h| *h == 0));
}

#[test]
fn fill_rectangle_16bpp_scissor_clipped_wraps_one_pixel() {
    let s = rectangle_stream(
        OTHERMODE_FILL,
        PixelSize::Bits16,
        fill16,
        (5 * 4, 3 * 4, 60 * 4, 30 * 4),
        (0, 0, 128, 64),
    );
    let (bytes, _, unhandled) = run(&s, 2);
    assert_eq!(unhandled, 0);
    // x runs up to the pixel AT the scissor right (32), which is the next row's pixel 0;
    // the scissor bottom is exclusive, so rows end at 15
    expect_painted16(&bytes, 5, 32, 3, 15);
    assert_eq!(pixel16(&bytes, 0, 16), EVEN16);
}

#[test]
fn fill_rectangle_16bpp_fractional_edges() {
    let s = rectangle_stream(
        OTHERMODE_FILL,
        PixelSize::Bits16,
        fill16,
        (3 * 4 + 3, 2 * 4 + 1, 13 * 4 + 3, 9 * 4 + 3),
        (0, 0, 128, 64),
    );
    let (bytes, _, _) = run(&s, 2);
    expect_painted16(&bytes, 3, 13, 2, 9);
}

#[test]
fn fill_rectangle_inverted_paints_nothing() {
    let s = rectangle_stream(
        OTHERMODE_FILL,
        PixelSize::Bits16,
        fill16,
        (13 * 4, 2 * 4, 3 * 4, 9 * 4),
        (0, 0, 128, 64),
    );
    let (bytes, _, unhandled) = run(&s, 2);
    assert_eq!(unhandled, 0);
    assert!(bytes.iter().all(|b| *b == 0));
}

#[test]
fn fill_rectangle_fractional_scissor() {
    // scissor left 2.25, top 2.75: clamps act on pixel indices of the scissor edges
    let s = rectangle_stream(
        OTHERMODE_FILL,
        PixelSize::Bits16,
        fill16,
        (2, 3, 60 * 4, 30 * 4),
        (9, 11, 128, 64),
    );
    let (bytes, _, _) = run(&s, 2);
    expect_painted16(&bytes, 2, 32, 2, 15);
}

#[test]
fn fill_rectangle_32bpp() {
    let s = rectangle_stream(
        OTHERMODE_FILL,
        PixelSize::Bits32,
        |stream: &mut RDPAssembler| stream.set_fillcolor32(ARGB8888::new_with_raw_value(0x1122_3344)),
        (3 * 4, 2 * 4, 13 * 4, 9 * 4),
        (0, 0, 128, 64),
    );
    let (bytes, _, unhandled) = run(&s, 4);
    assert_eq!(unhandled, 0);
    for y in 0..HEIGHT {
        for x in 0..WIDTH {
            let painted = (3..=13).contains(&x) && (2..=9).contains(&y);
            assert_eq!(pixel32(&bytes, x, y), if painted { 0x1122_3344 } else { 0 });
        }
    }
    // big-endian in memory
    let i = (2 * WIDTH + 3) * 4;
    assert_eq!(&bytes[i..i + 4], &[0x11, 0x22, 0x33, 0x44]);
}

fn blend(stream: &mut RDPAssembler) {
    stream.set_blendcolor(ARGB8888::new_with_raw_value(0xFF80_4000));
}

#[test]
fn one_cycle_rectangle_16bpp_top_left_rule() {
    let s = rectangle_stream(
        OTHERMODE_ONE_CYCLE_BLEND,
        PixelSize::Bits16,
        blend,
        (3 * 4 + 2, 2 * 4 + 1, 13 * 4 + 2, 9 * 4 + 3),
        (0, 0, 128, 64),
    );
    let (bytes, _, unhandled) = run(&s, 2);
    assert_eq!(unhandled, 0);
    for y in 0..HEIGHT {
        for x in 0..WIDTH {
            let painted = (4..=13).contains(&x) && (3..=9).contains(&y);
            assert_eq!(pixel16(&bytes, x, y), if painted { 0xFC11 } else { 0 }, "({}, {})", x, y);
        }
    }
}

#[test]
fn one_cycle_rectangle_integer_edges_exclusive() {
    let s = rectangle_stream(
        OTHERMODE_ONE_CYCLE_BLEND,
        PixelSize::Bits16,
        blend,
        (3 * 4, 2 * 4, 13 * 4, 9 * 4),
        (0, 0, 128, 64),
    );
    let (bytes, _, _) = run(&s, 2);
    for y in 0..HEIGHT {
        for x in 0..WIDTH {
            let painted = (3..13).contains(&x) && (2..9).contains(&y);
            assert_eq!(pixel16(&bytes, x, y), if painted { 0xFC11 } else { 0 });
        }
    }
}

#[test]
fn one_cycle_rectangle_32bpp_alpha_is_full_coverage() {
    let s = rectangle_stream(
        OTHERMODE_ONE_CYCLE_BLEND,
        PixelSize::Bits32,
        blend,
        (5 * 4, 3 * 4, 60 * 4, 30 * 4),
        (0, 0, 128, 64),
    );
    let (bytes, _, unhandled) = run(&s, 4);
    assert_eq!(unhandled, 0);
    for y in 0..HEIGHT + GUARD_ROWS {
        for x in 0..WIDTH {
            let painted = (5..32).contains(&x) && (3..16).contains(&y);
            assert_eq!(pixel32(&bytes, x, y), if painted { 0xFF80_40E0 } else { 0 });
        }
    }
}

#[test]
fn one_cycle_rectangle_other_blender_is_unhandled() {
    let s = rectangle_stream(
        0x0000_0200,
        PixelSize::Bits16,
        blend,
        (3 * 4, 2 * 4, 13 * 4, 9 * 4),
        (0, 0, 128, 64),
    );
    let (bytes, _, unhandled) = run(&s, 2);
    assert_eq!(unhandled, 1);
    assert!(bytes.iter().all(|b| *b == 0));
}

#[test]
fn copy_mode_rectangle_is_unhandled() {
    let s = rectangle_stream(
        0x0020_0000_0000_0000,
        PixelSize::Bits16,
        fill16,
        (3 * 4, 2 * 4, 13 * 4, 9 * 4),
        (0, 0, 128, 64),
    );
    let (bytes, _, unhandled) = run(&s, 2);
    assert_eq!(unhandled, 1);
    assert!(bytes.iter().all(|b| *b == 0));
}

#[test]
fn unknown_commands_are_counted() {
    let mut stream = RDPAssembler::new();
    stream.set_tile(
        Format::RGBA,
        PixelSize::Bits16,
        0,
        0,
        0,
        0,
        (false, false),
        (0, 0),
        (false, false),
        (0, 0),
    );
    stream.sync_pipe();
    stream.sync_load();
    stream.sync_tile();
    stream.sync_full();
    let (_, _, unhandled) = run(stream.words(), 2);
    assert_eq!(unhandled, 1);
}

#[test]
fn truncated_command_counts_and_stops() {
    // a texture rectangle needs two words; the stream ends after its first
    let mut stream = RDPAssembler::new();
    stream.texture_rectangle(0, &rect(0, 0, 4, 4), 0, 0, 0, 0);
    let words = stream.words().clone();
    let (_, _, unhandled) = run(&words[..1], 2);
    assert_eq!(unhandled, 1);
    // the complete command is consumed as one (unhandled) command
    let (_, _, unhandled) = run(&words, 2);
    assert_eq!(unhandled, 1);
}

#[test]
fn empty_stream_changes_nothing() {
    let (bytes, hidden, unhandled) = run(&[], 2);
    assert_eq!(unhandled, 0);
    assert!(bytes.iter().all(|b| *b == 0));
    assert!(hidden.iter().all(|b| *b == 0));
}

#[test]
fn state_follows_the_set_commands() {
    let s = rectangle_stream(
        OTHERMODE_FILL,
        PixelSize::Bits16,
        fill16,
        (13 * 4, 2 * 4, 3 * 4, 9 * 4),
        (4, 8, 100, 60),
    );
    let mut bytes = vec![0u8; WIDTH * (HEIGHT + GUARD_ROWS) * 2];
    let mut hidden = vec![0u8; bytes.len() / 2];
    let mut rdp = SoftRdp::new();
    let mut mem = SliceRdram::new(BASE, &mut bytes, &mut hidden);
    rdp.run(&s, &mut mem);
    assert_eq!(rdp.state.scissor_bounds(), (4, 8, 100, 60));
    assert_eq!(rdp.state.color_image_addr(), BASE);
    assert_eq!(rdp.state.color_image_size(), 2);
    assert_eq!(rdp.state.color_image_width(), (WIDTH - 1) as u32);
    assert_eq!(rdp.state.fill_color, ((EVEN16 as u32) << 16) | ODD16 as u32);
    assert_eq!(mem.read_u16(BASE), 0);
}

#[test]
fn default_is_new() {
    let rdp = SoftRdp::default();
    assert_eq!(rdp.unhandled, 0);
    assert_eq!(rdp.state.other_modes, 0);
    assert_eq!(rdp.state.scissor, 0);
    assert_eq!(rdp.state.color_image, 0);
}

#[test]
fn leading_sync_runs_like_the_stream_without_it() {
    let s = rectangle_stream(
        OTHERMODE_FILL,
        PixelSize::Bits16,
        fill16,
        (3 * 4, 2 * 4, 13 * 4, 9 * 4),
        (0, 0, 128, 64),
    );
    let mut with_sync = vec![0x2700_0000_0000_0000u64];
    with_sync.extend_from_slice(&s);
    assert_eq!(run(&with_sync, 2), run(&s, 2));
}

#[test]
fn streams_without_rectangles_leave_memory_alone() {
    let mut stream = RDPAssembler::new();
    stream.set_framebuffer_image(Format::RGBA, PixelSize::Bits16, U12::new(31), BASE as usize);
    stream.set_scissor(&rect(0, 0, 128, 64));
    stream.set_othermode(Othermode::new_with_raw_value(OTHERMODE_FILL));
    fill16(&mut stream);
    stream.set_combine_raw(0x12_3456);
    stream.sync_full();
    let (bytes, hidden, unhandled) = run(stream.words(), 2);
    assert_eq!(unhandled, 1);
    assert!(bytes.iter().all(|b| *b == 0));
    assert!(hidden.iter().all(|b| *b == 0));
}

#[test]
fn running_whole_commands_then_the_rest_is_running_them_joined() {
    let s = rectangle_stream(
        OTHERMODE_ONE_CYCLE_BLEND,
        PixelSize::Bits32,
        blend,
        (5 * 4, 3 * 4, 60 * 4, 30 * 4),
        (0, 0, 128, 64),
    );
    let (first, second) = s.split_at(3);
    let mut bytes = vec![0u8; WIDTH * (HEIGHT + GUARD_ROWS) * 4];
    let mut hidden = vec![0u8; bytes.len() / 2];
    let mut rdp = SoftRdp::new();
    {
        let mut mem = SliceRdram::new(BASE, &mut bytes, &mut hidden);
        rdp.run(first, &mut mem);
        rdp.run(second, &mut mem);
    }
    let (joined_bytes, joined_hidden, joined_unhandled) = run(&s, 4);
    assert_eq!(bytes, joined_bytes);
    assert_eq!(hidden, joined_hidden);
    assert_eq!(rdp.unhandled, joined_unhandled);
}
