//! Command stream decoding. A command is 1..=22 64-bit words; the opcode lives in bits 61..=56 of
//! the first word.
use vstd::prelude::*;
use self::op::{
    FILL_TRIANGLE, FILL_Z_TRIANGLE, TEXTURE_TRIANGLE, TEXTURE_Z_TRIANGLE, SHADE_TRIANGLE,
    SHADE_Z_TRIANGLE, SHADE_TEXTURE_TRIANGLE, SHADE_TEXTURE_Z_TRIANGLE, TEXTURE_RECTANGLE,
    TEXTURE_RECTANGLE_FLIP,
};

pub mod op;

verus! {

/// The opcode field (bits 61..=56) of a command's first word.
pub open spec fn spec_opcode(word: u64) -> u8 {
    ((word >> 56u64) & 0x3Fu64) as u8
}

pub fn opcode(word: u64) -> (r: u8)
    ensures
        r == spec_opcode(word),
        r < 64,
{
    assert(((word >> 56u64) & 0x3Fu64) < 64) by (bit_vector);
    ((word >> 56u64) & 0x3Fu64) as u8
}

/// Total length in 64-bit words of a command with the given opcode, first word included.
/// Triangles carry 4 edge words, plus 8 shade, plus 8 texture, plus 2 z coefficient words.
pub open spec fn spec_command_words(opcode: u8) -> nat {
    if opcode == FILL_TRIANGLE {
        4
    } else if opcode == FILL_Z_TRIANGLE {
        4 + 2
    } else if opcode == TEXTURE_TRIANGLE {
        4 + 8
    } else if opcode == TEXTURE_Z_TRIANGLE {
        4 + 8 + 2
    } else if opcode == SHADE_TRIANGLE {
        4 + 8
    } else if opcode == SHADE_Z_TRIANGLE {
        4 + 8 + 2
    } else if opcode == SHADE_TEXTURE_TRIANGLE {
        4 + 8 + 8
    } else if opcode == SHADE_TEXTURE_Z_TRIANGLE {
        4 + 8 + 8 + 2
    } else if opcode == TEXTURE_RECTANGLE || opcode == TEXTURE_RECTANGLE_FLIP {
        2
    } else {
        1
    }
}

pub fn command_words(opcode: u8) -> (r: usize)
    ensures
        r == spec_command_words(opcode),
        1 <= r <= 22,
{
    match opcode {
        FILL_TRIANGLE => 4,
        FILL_Z_TRIANGLE => 4 + 2,
        TEXTURE_TRIANGLE => 4 + 8,
        TEXTURE_Z_TRIANGLE => 4 + 8 + 2,
        SHADE_TRIANGLE => 4 + 8,
        SHADE_Z_TRIANGLE => 4 + 8 + 2,
        SHADE_TEXTURE_TRIANGLE => 4 + 8 + 8,
        SHADE_TEXTURE_Z_TRIANGLE => 4 + 8 + 8 + 2,
        TEXTURE_RECTANGLE | TEXTURE_RECTANGLE_FLIP => 2,
        _ => 1,
    }
}

/// How long a command is, from its opcode bits: a triangle (0x08..=0x0F) has its 4 edge words,
/// plus 2 z coefficient words if bit 0 is set, 8 texture words if bit 1 is set and 8 shade words
/// if bit 2 is set; the two texture rectangles have 2 words; every other command has 1.
pub proof fn command_length_from_opcode_bits(opcode: u8)
    ensures
        8 <= opcode <= 15 ==> spec_command_words(opcode) == 4 + (if opcode % 2 == 1 {
            2int
        } else {
            0
        }) + (if (opcode / 2) % 2 == 1 {
            8int
        } else {
            0
        }) + (if (opcode / 4) % 2 == 1 {
            8int
        } else {
            0
        }),
        opcode == 0x24 || opcode == 0x25 ==> spec_command_words(opcode) == 2,
        !(8 <= opcode <= 15) && opcode != 0x24 && opcode != 0x25 ==> spec_command_words(opcode) == 1,
{
}

} // verus!
