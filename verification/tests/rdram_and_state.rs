use n64_systemtest::cmd::op::{FILL_RECTANGLE, FILL_TRIANGLE, SET_COLOR_IMAGE, SHADE_TEXTURE_Z_TRIANGLE, TEXTURE_RECTANGLE};
use n64_systemtest::cmd::{command_words, opcode};
use n64_systemtest::state::{CycleType, State};
use n64_systemtest::{Rdram, SliceRdram};

#[test]
fn u16_and_u32_are_big_endian() {
    let mut bytes = vec![0u8; 16];
    let mut hidden = vec![0u8; 8];
    {
        let mut mem = SliceRdram::new(0x100, &mut bytes, &mut hidden);
        mem.write_u16(0x102, 0xABCD);
        mem.write_u32(0x108, 0x1122_3344);
        assert_eq!(mem.read_u16(0x102), 0xABCD);
        assert_eq!(mem.read_u32(0x108), 0x1122_3344);
        assert_eq!(mem.read_u8(0x103), 0xCD);
        assert_eq!(mem.read_u16(0x10A), 0x3344);
        assert_eq!(mem.read_u32(0x100), 0x0000_ABCD);
    }
    assert_eq!(&bytes[2..4], &[0xAB, 0xCD]);
    assert_eq!(&bytes[8..12], &[0x11, 0x22, 0x33, 0x44]);
}

#[test]
fn byte_writes_touch_one_byte() {
    let mut bytes = vec![0xEEu8; 4];
    let mut hidden = vec![0u8; 2];
    {
        let mut mem = SliceRdram::new(0, &mut bytes, &mut hidden);
        mem.write_u8(1, 0x5A);
        assert_eq!(mem.read_u8(1), 0x5A);
        assert_eq!(mem.read_u8(0), 0xEE);
    }
    assert_eq!(bytes, vec![0xEE, 0x5A, 0xEE, 0xEE]);
}

#[test]
fn hidden_bits_are_per_16_bit_word_and_masked() {
    let mut bytes = vec![0u8; 8];
    let mut hidden = vec![0u8; 4];
    {
        let mut mem = SliceRdram::new(0x200, &mut bytes, &mut hidden);
        mem.write_hidden(0x203, 7);
        // both bytes of the word share the entry; only two bits are kept
        assert_eq!(mem.read_hidden(0x202), 3);
        assert_eq!(mem.read_hidden(0x203), 3);
        assert_eq!(mem.read_hidden(0x200), 0);
        mem.write_hidden(0x204, 2);
        assert_eq!(mem.read_hidden(0x205), 2);
        // byte writes leave the hidden plane alone
        mem.write_u16(0x202, 0xFFFF);
        assert_eq!(mem.read_hidden(0x202), 3);
    }
    assert_eq!(hidden, vec![0, 3, 2, 0]);
}

#[test]
fn opcode_is_bits_61_to_56() {
    assert_eq!(opcode(0x3600_0000_0000_0000), FILL_RECTANGLE);
    assert_eq!(opcode(0xFF00_0000_0000_0000), 0x3F);
    assert_eq!(opcode(0xC800_0000_1234_5678), FILL_TRIANGLE);
    assert_eq!(opcode(0x3F00_0000_0000_0000), SET_COLOR_IMAGE);
}

#[test]
fn command_lengths() {
    assert_eq!(command_words(FILL_TRIANGLE), 4);
    assert_eq!(command_words(0x09), 6);
    assert_eq!(command_words(0x0A), 12);
    assert_eq!(command_words(0x0C), 12);
    assert_eq!(command_words(SHADE_TEXTURE_Z_TRIANGLE), 22);
    assert_eq!(command_words(TEXTURE_RECTANGLE), 2);
    assert_eq!(command_words(0x25), 2);
    assert_eq!(command_words(FILL_RECTANGLE), 1);
    assert_eq!(command_words(0x00), 1);
}

fn state(other_modes: u64, scissor: u64, color_image: u64) -> State {
    State { other_modes, scissor, fill_color: 0, blend_color: 0, color_image }
}

#[test]
fn cycle_type_decoding() {
    assert_eq!(state(0, 0, 0).cycle_type(), CycleType::OneCycle);
    assert_eq!(state(1 << 52, 0, 0).cycle_type(), CycleType::TwoCycle);
    assert_eq!(state(2 << 52, 0, 0).cycle_type(), CycleType::Copy);
    assert_eq!(state(3 << 52, 0, 0).cycle_type(), CycleType::Fill);
    assert_eq!(state(0xFFCF_FFFF_FFFF_FFFF, 0, 0).cycle_type(), CycleType::OneCycle);
}

#[test]
fn scissor_and_color_image_fields() {
    let s = state(
        0,
        0x2D00_0000_0000_0000 | (0x123 << 44) | (0x456 << 32) | (0x789 << 12) | 0xABC,
        0x3F00_0000_0000_0000 | (3 << 53) | (2 << 51) | (0x53F << 32) | 0x0C12_3456,
    );
    assert_eq!(s.scissor_bounds(), (0x123, 0x456, 0x789, 0xABC));
    // the address is 26 bits, the width field 10 bits
    assert_eq!(s.color_image_addr(), 0x0012_3456);
    assert_eq!(s.color_image_size(), 2);
    assert_eq!(s.color_image_width(), 0x13F);
}

#[test]
fn blender_and_coverage_fields() {
    let s = state(0x804C_0200, 0, 0);
    assert_eq!(s.blender_0(), (2, 0, 1, 3));
    assert_eq!(s.coverage_mode(), 2);
    let s = state(0x3C00_0000 | 0x0300, 0, 0);
    assert_eq!(s.blender_0(), (0, 3, 0, 0));
    assert_eq!(s.coverage_mode(), 3);
}

#[test]
fn new_state_is_zero() {
    let s = State::new();
    assert_eq!((s.other_modes, s.scissor, s.fill_color, s.blend_color, s.color_image), (0, 0, 0, 0, 0));
    let d = State::default();
    assert_eq!(d.cycle_type(), CycleType::OneCycle);
}
