use n64_systemtest::rdp_assembler::{
    Format, Othermode, PixelSize, RDPAssembler, RDPCommand, RDPRectangle, TriangleBase, ARGB8888,
    I12_2, I16_16, RGBA5551, U10_2,
};
use n64_systemtest::uint::{U12, U5};

fn rect(left: u32, top: u32, right: u32, bottom: u32) -> RDPRectangle {
    RDPRectangle::new(
        U10_2::new_with_masked_value(left),
        U10_2::new_with_masked_value(top),
        U10_2::new_with_masked_value(right),
        U10_2::new_with_masked_value(bottom),
    )
}

#[test]
fn command_numbers() {
    assert_eq!(RDPCommand::FilledTriangle.value(), 0x08);
    assert_eq!(RDPCommand::TexturedRectangle.value(), 0x24);
    assert_eq!(RDPCommand::SetScissor.value(), 0x2D);
    assert_eq!(RDPCommand::FilledRectangle.value(), 0x36);
    assert_eq!(RDPCommand::SetFramebufferImage.value(), 0x3F);
}

#[test]
fn rectangle_words() {
    let mut stream = RDPAssembler::new();
    stream.set_scissor(&rect(4, 8, 100, 60));
    stream.filled_rectangle(&rect(12, 8, 52, 36));
    assert_eq!(stream.len(), 2);
    assert_eq!(stream.word(0), 0x2D00_4008_0006_403C);
    assert_eq!(stream.word(1), 0x3603_4024_0000_C008);
}

#[test]
fn fixed_point_values_are_masked() {
    assert_eq!(U10_2::new_with_masked_value(0x1234).masked_value(), 0x234);
    assert_eq!(I12_2::new_with_masked_value(0xFFFF_FFFC).masked_value(), 0x3FFC);
    let r = rect(0x1004, 1, 2, 3);
    assert_eq!(r.left().masked_value(), 4);
    assert_eq!(r.top().masked_value(), 1);
    assert_eq!(r.right().masked_value(), 2);
    assert_eq!(r.bottom().masked_value(), 3);
}

#[test]
fn sync_words() {
    let mut stream = RDPAssembler::new();
    stream.sync_full();
    stream.sync_pipe();
    stream.sync_load();
    stream.sync_tile();
    assert_eq!(
        stream.words().as_slice(),
        &[
            0x2900_0000_0000_0000,
            0x2700_0000_0000_0000,
            0x2600_0000_0000_0000,
            0x2800_0000_0000_0000
        ]
    );
}

#[test]
fn color_words() {
    let mut stream = RDPAssembler::new();
    stream.set_fillcolor32(ARGB8888::new_with_raw_value(0x1122_3344));
    stream.set_blendcolor(ARGB8888::new_with_raw_value(0xFF80_4000));
    let c1 = RGBA5551::new(U5::new(0x1F), U5::new(0), U5::new(0), true);
    let c2 = RGBA5551::new(U5::new(0), U5::new(0x1F), U5::new(0), true);
    assert_eq!(c1.raw_value(), 0xF801);
    assert_eq!(c2.raw_value(), 0x07C1);
    stream.set_fillcolor16(c1, c2);
    assert_eq!(stream.word(0), 0x3700_0000_1122_3344);
    assert_eq!(stream.word(1), 0x3900_0000_FF80_4000);
    assert_eq!(stream.word(2), 0x3700_0000_07C1_F801);
}

#[test]
fn mode_and_image_words() {
    let mut stream = RDPAssembler::new();
    let mode = Othermode::new_with_raw_value(0xFF30_0000_0000_0000);
    assert_eq!(mode.raw_value(), 0x0030_0000_0000_0000);
    stream.set_othermode(mode);
    stream.set_framebuffer_image(Format::RGBA, PixelSize::Bits16, U12::new(319), 0x0410_0000);
    stream.set_texture_image(Format::IA, PixelSize::Bits8, U12::new(31), 0x2000);
    stream.set_combine_raw(0x00FF_FFFF_FFFF_FFFF);
    assert_eq!(stream.word(0), 0x2F30_0000_0000_0000);
    // the address keeps its low 26 bits
    assert_eq!(stream.word(1), 0x3F10_013F_0010_0000);
    assert_eq!(stream.word(2), 0x3D68_001F_0000_2000);
    assert_eq!(stream.word(3), 0x3CFF_FFFF_FFFF_FFFF);
}

#[test]
fn tile_words() {
    let mut stream = RDPAssembler::new();
    stream.set_tile(
        Format::IA,
        PixelSize::Bits8,
        0x10,
        0x100,
        5,
        0xA,
        (true, false),
        (5, 3),
        (false, true),
        (4, 0xF),
    );
    stream.set_tile_size(1, 4, 8, 0x3C, 0x7C);
    stream.load_tile(1, 4, 8, 0x3C, 0x7C);
    stream.load_tlut(1, 4, 8, 0x3C, 0x7C);
    stream.load_block(7, 0, 0, 0x7FF, 0x800);
    assert_eq!(stream.word(0), 0x3568_2100_05A9_4D4F);
    assert_eq!(stream.word(1), 0x3200_4008_0103_C07C);
    assert_eq!(stream.word(2), 0x3400_4008_0103_C07C);
    assert_eq!(stream.word(3), 0x3000_4008_0103_C07C);
    assert_eq!(stream.word(4), 0x3300_0000_077F_F800);
}

#[test]
fn texture_rectangle_words() {
    let mut stream = RDPAssembler::new();
    stream.texture_rectangle(2, &rect(0, 0, 64, 32), 0x20, 0x40, 0x400, 0x400);
    assert_eq!(stream.len(), 2);
    assert_eq!(stream.word(0), 0x2404_0020_0200_0000);
    assert_eq!(stream.word(1), 0x0020_0040_0400_0400);
}

fn triangle() -> TriangleBase {
    TriangleBase::new(
        true,
        3,
        5,
        I12_2::new_with_masked_value(24),
        I12_2::new_with_masked_value(0xFFFF_FFF8),
        I12_2::new_with_masked_value(8),
        I16_16::new_with_masked_value(0x0004_0000),
        I16_16::new_with_masked_value(0x0005_8000),
        I16_16::new_with_masked_value(0x000A_0000),
        I16_16::new_with_masked_value(0xFFFF_0000),
        I16_16::new_with_masked_value(0x0000_8000),
        I16_16::new_with_masked_value(0x0001_0000),
    )
}

#[test]
fn triangle_fields_read_back() {
    let t = triangle();
    assert!(t.is_right_major());
    assert_eq!(t.mip(), 3);
    assert_eq!(t.tile(), 5);
    assert_eq!(t.yl().masked_value(), 24);
    assert_eq!(t.ym().masked_value(), 0x3FF8);
    assert_eq!(t.yh().masked_value(), 8);
    assert_eq!(t.xl().masked_value(), 0x0004_0000);
    assert_eq!(t.xm().masked_value(), 0x0005_8000);
    assert_eq!(t.xh().masked_value(), 0x000A_0000);
    assert_eq!(t.dl().masked_value(), 0xFFFF_0000);
    assert_eq!(t.dm().masked_value(), 0x0000_8000);
    assert_eq!(t.dh().masked_value(), 0x0001_0000);
}

#[test]
fn triangle_words() {
    let t = triangle();
    let mut stream = RDPAssembler::new();
    stream.filled_triangle(&t);
    assert_eq!(
        stream.words().as_slice(),
        &[
            0x089D_0018_3FF8_0008,
            0x0004_0000_FFFF_0000,
            0x000A_0000_0001_0000,
            0x0005_8000_0000_8000
        ]
    );
    let shade = [1u64, 2, 3, 4, 5, 6, 7, 8];
    let mut stream = RDPAssembler::new();
    stream.shaded_triangle(&t, &shade);
    assert_eq!(stream.len(), 12);
    assert_eq!(stream.word(0), 0x0C9D_0018_3FF8_0008);
    assert_eq!(stream.word(3), 0x0005_8000_0000_8000);
    assert_eq!(stream.word(4), 1);
    assert_eq!(stream.word(11), 8);
}

#[test]
fn triangle_debug_fields() {
    let t = triangle();
    let f = t.fields();
    assert!(f.is_right_major);
    assert_eq!(f.mip, 3);
    assert_eq!(f.tile, 5);
    assert_eq!(f.yl, t.yl());
    assert_eq!(f.ym, t.ym());
    assert_eq!(f.xm, t.xm());
    assert_eq!(f.dh, t.dh());
    let listing = format!("{:?}", f);
    assert!(listing.starts_with("TriangleBaseFields { is_right_major: true, mip: 3, tile: 5, yl: "));
}
