//! Builder for RDP command streams: every method appends the raw 64-bit words the DP fetches.
use vstd::prelude::*;
use crate::uint::{U5, U12};
use crate::cmd::spec_opcode;
use crate::state::{State, field12};
use crate::raster::rect_corners;
use crate::soft::command_step;
use crate::triangle::{decode_edges, spec_sign_extend_14};

verus! {

/// RDP command opcodes, as placed in bits 61..=56 of a command's first word.
#[derive(Clone, Copy, Debug, PartialEq, Eq, Structural)]
pub enum RDPCommand {
    FilledTriangle,
    DepthFilledTriangle,
    TexturedTriangle,
    TexturedDepthTriangle,
    ShadedTriangle,
    ShadedDepthTriangle,
    ShadedTexturedTriangle,
    ShadedTexturedDepthTriangle,
    TexturedRectangle,
    FlippedTexturedRectangle,
    SyncLoad,
    SyncPipe,
    TileSync,
    SyncFull,
    SetKeyColorGreenBlue,
    SetKeyColorRed,
    SetConvert,
    SetScissor,
    SetPrimitiveDepth,
    SetOtherMode,
    LoadPalette,
    SetTileSize,
    LoadBlock,
    LoadTile,
    SetTile,
    FilledRectangle,
    SetFillColor,
    SetFogColor,
    SetBlendColor,
    SetPrimitiveColor,
    SetEnvColor,
    SetCombine,
    SetTextureImage,
    SetDepthImage,
    SetFramebufferImage,
}

impl RDPCommand {
    pub open spec fn spec_value(self) -> u64 {
        match self {
            RDPCommand::FilledTriangle => 8,
            RDPCommand::DepthFilledTriangle => 9,
            RDPCommand::TexturedTriangle => 10,
            RDPCommand::TexturedDepthTriangle => 11,
            RDPCommand::ShadedTriangle => 12,
            RDPCommand::ShadedDepthTriangle => 13,
            RDPCommand::ShadedTexturedTriangle => 14,
            RDPCommand::ShadedTexturedDepthTriangle => 15,
            RDPCommand::TexturedRectangle => 36,
            RDPCommand::FlippedTexturedRectangle => 37,
            RDPCommand::SyncLoad => 38,
            RDPCommand::SyncPipe => 39,
            RDPCommand::TileSync => 40,
            RDPCommand::SyncFull => 41,
            RDPCommand::SetKeyColorGreenBlue => 42,
            RDPCommand::SetKeyColorRed => 43,
            RDPCommand::SetConvert => 44,
            RDPCommand::SetScissor => 45,
            RDPCommand::SetPrimitiveDepth => 46,
            RDPCommand::SetOtherMode => 47,
            RDPCommand::LoadPalette => 48,
            RDPCommand::SetTileSize => 50,
            RDPCommand::LoadBlock => 51,
            RDPCommand::LoadTile => 52,
            RDPCommand::SetTile => 53,
            RDPCommand::FilledRectangle => 54,
            RDPCommand::SetFillColor => 55,
            RDPCommand::SetFogColor => 56,
            RDPCommand::SetBlendColor => 57,
            RDPCommand::SetPrimitiveColor => 58,
            RDPCommand::SetEnvColor => 59,
            RDPCommand::SetCombine => 60,
            RDPCommand::SetTextureImage => 61,
            RDPCommand::SetDepthImage => 62,
            RDPCommand::SetFramebufferImage => 63,
        }
    }

    pub fn value(self) -> (r: u64)
        ensures
            r == self.spec_value(),
            r < 64,
    {
        match self {
            RDPCommand::FilledTriangle => 8,
            RDPCommand::DepthFilledTriangle => 9,
            RDPCommand::TexturedTriangle => 10,
            RDPCommand::TexturedDepthTriangle => 11,
            RDPCommand::ShadedTriangle => 12,
            RDPCommand::ShadedDepthTriangle => 13,
            RDPCommand::ShadedTexturedTriangle => 14,
            RDPCommand::ShadedTexturedDepthTriangle => 15,
            RDPCommand::TexturedRectangle => 36,
            RDPCommand::FlippedTexturedRectangle => 37,
            RDPCommand::SyncLoad => 38,
            RDPCommand::SyncPipe => 39,
            RDPCommand::TileSync => 40,
            RDPCommand::SyncFull => 41,
            RDPCommand::SetKeyColorGreenBlue => 42,
            RDPCommand::SetKeyColorRed => 43,
            RDPCommand::SetConvert => 44,
            RDPCommand::SetScissor => 45,
            RDPCommand::SetPrimitiveDepth => 46,
            RDPCommand::SetOtherMode => 47,
            RDPCommand::LoadPalette => 48,
            RDPCommand::SetTileSize => 50,
            RDPCommand::LoadBlock => 51,
            RDPCommand::LoadTile => 52,
            RDPCommand::SetTile => 53,
            RDPCommand::FilledRectangle => 54,
            RDPCommand::SetFillColor => 55,
            RDPCommand::SetFogColor => 56,
            RDPCommand::SetBlendColor => 57,
            RDPCommand::SetPrimitiveColor => 58,
            RDPCommand::SetEnvColor => 59,
            RDPCommand::SetCombine => 60,
            RDPCommand::SetTextureImage => 61,
            RDPCommand::SetDepthImage => 62,
            RDPCommand::SetFramebufferImage => 63,
        }
    }
}

/// Unsigned 10.2 fixed point: a 12-bit raw value (pixels * 4).
#[derive(Clone, Copy, Debug, PartialEq, Eq, Structural)]
pub struct U10_2 {
    raw: u16,
}

impl View for U10_2 {
    type V = u32;

    closed spec fn view(&self) -> u32 {
        self.raw as u32
    }
}

/// Mask and shift facts behind the fixed-point constructors and the command payloads.
proof fn lemma_masks(v: u32, w: u64)
    by (bit_vector)
    ensures
        v & 0xFFF < 0x1000,
        v & 0x3FFF < 0x4000,
        (v & 0x3FFF) & 0x3FFF == v & 0x3FFF,
        (v as u64) & 0x3FF == (v & 0x3FF) as u64,
        w < 0x1_0000_0000 ==> w >> 56u64 == 0,
{
}

impl U10_2 {
    #[verifier::type_invariant]
    spec fn fits(self) -> bool {
        self.raw < 0x1000
    }

    /// From a raw value; bits above the 12 of the format are dropped.
    pub fn new_with_masked_value(value: u32) -> (r: U10_2)
        ensures
            r@ == value & 0xFFF,
    {
        proof {
            lemma_masks(value, 0);
        }
        U10_2 { raw: (value & 0xFFF) as u16 }
    }

    pub fn masked_value(self) -> (r: u32)
        ensures
            r == self@,
            r < 0x1000,
    {
        proof {
            use_type_invariant(&self);
        }
        self.raw as u32
    }
}

/// Signed 12.2 fixed point: a 14-bit two's complement raw value.
#[derive(Clone, Copy, Debug, PartialEq, Eq, Structural)]
pub struct I12_2 {
    raw: u16,
}

impl View for I12_2 {
    type V = u32;

    closed spec fn view(&self) -> u32 {
        self.raw as u32
    }
}

impl I12_2 {
    #[verifier::type_invariant]
    spec fn fits(self) -> bool {
        self.raw < 0x4000
    }

    /// From a raw value; bits above the 14 of the format are dropped.
    pub fn new_with_masked_value(value: u32) -> (r: I12_2)
        ensures
            r@ == value & 0x3FFF,
    {
        proof {
            lemma_masks(value, 0);
        }
        I12_2 { raw: (value & 0x3FFF) as u16 }
    }

    pub fn masked_value(self) -> (r: u32)
        ensures
            r == self@,
            r < 0x4000,
    {
        proof {
            use_type_invariant(&self);
        }
        self.raw as u32
    }
}

/// Signed 16.16 fixed point: a 32-bit two's complement raw value.
#[derive(Clone, Copy, Debug, PartialEq, Eq, Structural)]
pub struct I16_16 {
    raw: u32,
}

impl View for I16_16 {
    type V = u32;

    closed spec fn view(&self) -> u32 {
        self.raw
    }
}

impl I16_16 {
    pub fn new_with_masked_value(value: u32) -> (r: I16_16)
        ensures
            r@ == value,
    {
        I16_16 { raw: value }
    }

    pub fn masked_value(self) -> (r: u32)
        ensures
            r == self@,
    {
        self.raw
    }
}

/// A 32-bit color as the RDP takes it: r, g, b, a bytes from high to low.
#[derive(Clone, Copy, Debug, PartialEq, Eq, Structural)]
pub struct ARGB8888 {
    raw: u32,
}

impl View for ARGB8888 {
    type V = u32;

    closed spec fn view(&self) -> u32 {
        self.raw
    }
}

impl ARGB8888 {
    pub fn new_with_raw_value(value: u32) -> (r: ARGB8888)
        ensures
            r@ == value,
    {
        ARGB8888 { raw: value }
    }

    pub fn raw_value(self) -> (r: u32)
        ensures
            r == self@,
    {
        self.raw
    }
}

/// A 16-bit pixel: r bits 15..=11, g 10..=6, b 5..=1, alpha bit 0.
#[derive(Clone, Copy, Debug, PartialEq, Eq, Structural)]
pub struct RGBA5551 {
    raw: u16,
}

impl View for RGBA5551 {
    type V = u16;

    closed spec fn view(&self) -> u16 {
        self.raw
    }
}

impl RGBA5551 {
    pub fn new(r: U5, g: U5, b: U5, a: bool) -> (c: RGBA5551)
        ensures
            c@ == r@ * 0x800 + g@ * 0x40 + b@ * 2 + if a {
                1int
            } else {
                0int
            },
    {
        let rv = r.value() as u16;
        let gv = g.value() as u16;
        let bv = b.value() as u16;
        let av: u16 = if a {
            1
        } else {
            0
        };
        assert(rv < 32 && gv < 32 && bv < 32 && av < 2 ==> (rv << 11u16) | (gv << 6u16) | (bv << 1u16)
            | av == rv * 0x800 + gv * 0x40 + bv * 2 + av) by (bit_vector);
        (RGBA5551 { raw: (rv << 11u16) | (gv << 6u16) | (bv << 1u16) | av })
    }

    pub fn new_with_raw_value(value: u16) -> (c: RGBA5551)
        ensures
            c@ == value,
    {
        RGBA5551 { raw: value }
    }

    pub fn raw_value(self) -> (r: u16)
        ensures
            r == self@,
    {
        self.raw
    }
}

/// Image formats (SetColorImage/SetTextureImage/SetTile bits 55..=53).
#[derive(Clone, Copy, Debug, PartialEq, Eq, Structural)]
pub enum Format {
    RGBA,
    YUV,
    ColorIndex,
    IA,
    I,
}

impl Format {
    pub open spec fn spec_value(self) -> u64 {
        match self {
            Format::RGBA => 0,
            Format::YUV => 1,
            Format::ColorIndex => 2,
            Format::IA => 3,
            Format::I => 4,
        }
    }

    pub fn value(self) -> (r: u64)
        ensures
            r == self.spec_value(),
            r < 8,
    {
        match self {
            Format::RGBA => 0,
            Format::YUV => 1,
            Format::ColorIndex => 2,
            Format::IA => 3,
            Format::I => 4,
        }
    }
}

/// Pixel sizes (bits 52..=51): log2(bits per pixel) - 2.
#[derive(Clone, Copy, Debug, PartialEq, Eq, Structural)]
pub enum PixelSize {
    Bits4,
    Bits8,
    Bits16,
    Bits32,
}

impl PixelSize {
    pub open spec fn spec_value(self) -> u64 {
        match self {
            PixelSize::Bits4 => 0,
            PixelSize::Bits8 => 1,
            PixelSize::Bits16 => 2,
            PixelSize::Bits32 => 3,
        }
    }

    pub fn value(self) -> (r: u64)
        ensures
            r == self.spec_value(),
            r < 4,
    {
        match self {
            PixelSize::Bits4 => 0,
            PixelSize::Bits8 => 1,
            PixelSize::Bits16 => 2,
            PixelSize::Bits32 => 3,
        }
    }
}

/// The 56-bit payload of SetOtherModes.
#[derive(Clone, Copy, Debug, PartialEq, Eq, Structural)]
pub struct Othermode {
    raw: u64,
}

impl View for Othermode {
    type V = u64;

    closed spec fn view(&self) -> u64 {
        self.raw
    }
}

impl Othermode {
    #[verifier::type_invariant]
    spec fn fits(self) -> bool {
        self.raw >> 56u64 == 0
    }

    /// From a raw value; bits 63..=56 (the command byte) are dropped.
    pub fn new_with_raw_value(value: u64) -> (r: Othermode)
        ensures
            r@ == value & 0x00FF_FFFF_FFFF_FFFF,
    {
        assert((value & 0x00FF_FFFF_FFFF_FFFFu64) >> 56u64 == 0) by (bit_vector);
        Othermode { raw: value & 0x00FF_FFFF_FFFF_FFFFu64 }
    }

    pub fn raw_value(self) -> (r: u64)
        ensures
            r == self@,
            r >> 56u64 == 0,
    {
        proof {
            use_type_invariant(&self);
        }
        self.raw
    }
}


/// Number of 64-bit words a command buffer holds.
pub const INSTRUCTION_STREAM_SIZE: usize = 128;

/// A command's first word: opcode in bits 61..=56 (bits 63..=62 zero) above a 56-bit payload.
pub open spec fn command_word(command: RDPCommand, value: u64) -> u64 {
    (command.spec_value() << 56u64) | value
}

/// A screen rectangle in 10.2 fixed point.
#[derive(Clone, Copy, Debug)]
pub struct RDPRectangle {
    left: U10_2,
    top: U10_2,
    right: U10_2,
    bottom: U10_2,
}

impl RDPRectangle {
    pub closed spec fn spec_left(self) -> u32 {
        self.left@
    }

    pub closed spec fn spec_top(self) -> u32 {
        self.top@
    }

    pub closed spec fn spec_right(self) -> u32 {
        self.right@
    }

    pub closed spec fn spec_bottom(self) -> u32 {
        self.bottom@
    }

    pub fn new(left: U10_2, top: U10_2, right: U10_2, bottom: U10_2) -> (r: RDPRectangle)
        ensures
            r.spec_left() == left@ && r.spec_top() == top@ && r.spec_right() == right@
                && r.spec_bottom() == bottom@,
    {
        RDPRectangle { left, top, right, bottom }
    }

    pub fn left(&self) -> (r: U10_2)
        ensures
            r@ == self.spec_left(),
    {
        self.left
    }

    pub fn top(&self) -> (r: U10_2)
        ensures
            r@ == self.spec_top(),
    {
        self.top
    }

    pub fn right(&self) -> (r: U10_2)
        ensures
            r@ == self.spec_right(),
    {
        self.right
    }

    pub fn bottom(&self) -> (r: U10_2)
        ensures
            r@ == self.spec_bottom(),
    {
        self.bottom
    }

    /// The four 12-bit corners packed at bits 44, 32, 12 and 0 in the given order.
    fn pack(a: U10_2, b: U10_2, c: U10_2, d: U10_2) -> (r: u64)
        ensures
            r == rect_payload(a@, b@, c@, d@),
            r >> 56u64 == 0,
    {
        let (av, bv, cv, dv) = (
            a.masked_value() as u64,
            b.masked_value() as u64,
            c.masked_value() as u64,
            d.masked_value() as u64,
        );
        assert(av < 0x1000 && bv < 0x1000 && cv < 0x1000 && dv < 0x1000 ==> ((av << 44u64) | (bv
            << 32u64) | (cv << 12u64) | dv) >> 56u64 == 0) by (bit_vector);
        (av << 44u64) | (bv << 32u64) | (cv << 12u64) | dv
    }
}

/// Four 12-bit values packed at bits 44, 32, 12 and 0.
pub open spec fn rect_payload(a: u32, b: u32, c: u32, d: u32) -> u64 {
    ((a as u64) << 44u64) | ((b as u64) << 32u64) | ((c as u64) << 12u64) | (d as u64)
}

/// The four edge words of a triangle command (the first without its opcode).
pub struct TriangleBase {
    data: [u64; 4],
}

/// First edge word: right-major flag bit 55, mip level 53..=51, tile 50..=48, yl 45..=32,
/// ym 29..=16, yh 13..=0.
pub open spec fn triangle_first(
    is_right_major: bool,
    mip: u32,
    tile: u32,
    yh: u32,
    ym: u32,
    yl: u32,
) -> u64 {
    ((if is_right_major {
        1u64
    } else {
        0u64
    }) << 55u64) | ((mip as u64) << 51u64) | ((tile as u64) << 48u64) | ((yl as u64) << 32u64)
        | ((ym as u64) << 16u64) | (yh as u64)
}

/// An edge word: the 16.16 x position in the high half, the 16.16 slope in the low half.
pub open spec fn edge_word(x: u32, d: u32) -> u64 {
    ((x as u64) << 32u64) | (d as u64)
}

impl TriangleBase {
    pub closed spec fn words(&self) -> Seq<u64> {
        self.data@
    }

    fn first(is_right_major: bool, mip: u32, tile: u32, yh: I12_2, ym: I12_2, yl: I12_2) -> (r: u64)
        requires
            mip <= 0xF,
            tile <= 0x7,
        ensures
            r == triangle_first(is_right_major, mip, tile, yh@, ym@, yl@),
    {
        let rm: u64 = if is_right_major {
            1
        } else {
            0
        };
        (rm << 55u64) | ((mip as u64) << 51u64) | ((tile as u64) << 48u64) | ((
        yl.masked_value() as u64) << 32u64) | ((ym.masked_value() as u64) << 16u64) | (
        yh.masked_value() as u64)
    }

    pub fn new(
        is_right_major: bool,
        mip: u32,
        tile: u32,
        yl: I12_2,
        ym: I12_2,
        yh: I12_2,
        xl: I16_16,
        xm: I16_16,
        xh: I16_16,
        dl: I16_16,
        dm: I16_16,
        dh: I16_16,
    ) -> (r: TriangleBase)
        requires
            mip <= 0xF,
            tile <= 0x7,
        ensures
            r.words() == seq![
                triangle_first(is_right_major, mip, tile, yh@, ym@, yl@),
                edge_word(xl@, dl@),
                edge_word(xh@, dh@),
                edge_word(xm@, dm@),
            ],
    {
        let w0 = Self::first(is_right_major, mip, tile, yh, ym, yl);
        let w1 = ((xl.masked_value() as u64) << 32u64) | (dl.masked_value() as u64);
        let w2 = ((xh.masked_value() as u64) << 32u64) | (dh.masked_value() as u64);
        let w3 = ((xm.masked_value() as u64) << 32u64) | (dm.masked_value() as u64);
        let r = TriangleBase { data: [w0, w1, w2, w3] };
        assert(r.words() =~= seq![w0, w1, w2, w3]);
        r
    }

    pub fn is_right_major(&self) -> (r: bool)
        ensures
            r == ((self.words()[0] >> 55u64) & 1 != 0),
    {
        ((self.data[0] >> 55u64) & 1) != 0
    }

    pub fn mip(&self) -> (r: u32)
        ensures
            r == ((self.words()[0] >> 51u64) as u32) & 0xF,
    {
        ((self.data[0] >> 51u64) as u32) & 0xF
    }

    pub fn tile(&self) -> (r: u32)
        ensures
            r == ((self.words()[0] >> 48u64) as u32) & 0x7,
    {
        ((self.data[0] >> 48u64) as u32) & 0x7
    }

    pub fn yl(&self) -> (r: I12_2)
        ensures
            r@ == ((self.words()[0] >> 32u64) as u32) & 0x3FFF,
    {
        let w0 = self.data[0];
        let v = ((w0 >> 32u64) as u32) & 0x3FFF;
        proof {
            lemma_masks(((w0 >> 32u64) as u32), 0);
        }
        I12_2::new_with_masked_value(v)
    }

    pub fn ym(&self) -> (r: I12_2)
        ensures
            r@ == ((self.words()[0] >> 16u64) as u32) & 0x3FFF,
    {
        let w0 = self.data[0];
        let v = ((w0 >> 16u64) as u32) & 0x3FFF;
        proof {
            lemma_masks(((w0 >> 16u64) as u32), 0);
        }
        I12_2::new_with_masked_value(v)
    }

    pub fn yh(&self) -> (r: I12_2)
        ensures
            r@ == (self.words()[0] as u32) & 0x3FFF,
    {
        let w0 = self.data[0];
        let v = (w0 as u32) & 0x3FFF;
        proof {
            lemma_masks((w0 as u32), 0);
        }
        I12_2::new_with_masked_value(v)
    }

    pub fn xl(&self) -> (r: I16_16)
        ensures
            r@ == (self.words()[1] >> 32u64) as u32,
    {
        I16_16::new_with_masked_value((self.data[1] >> 32u64) as u32)
    }

    pub fn xm(&self) -> (r: I16_16)
        ensures
            r@ == (self.words()[3] >> 32u64) as u32,
    {
        I16_16::new_with_masked_value((self.data[3] >> 32u64) as u32)
    }

    pub fn xh(&self) -> (r: I16_16)
        ensures
            r@ == (self.words()[2] >> 32u64) as u32,
    {
        I16_16::new_with_masked_value((self.data[2] >> 32u64) as u32)
    }

    pub fn dl(&self) -> (r: I16_16)
        ensures
            r@ == self.words()[1] as u32,
    {
        I16_16::new_with_masked_value(self.data[1] as u32)
    }

    pub fn dm(&self) -> (r: I16_16)
        ensures
            r@ == self.words()[3] as u32,
    {
        I16_16::new_with_masked_value(self.data[3] as u32)
    }

    pub fn dh(&self) -> (r: I16_16)
        ensures
            r@ == self.words()[2] as u32,
    {
        I16_16::new_with_masked_value(self.data[2] as u32)
    }

    /// All decoded fields, in the order a debug listing shows them.
    pub fn fields(&self) -> (r: TriangleBaseFields)
        ensures
            r.is_right_major == ((self.words()[0] >> 55u64) & 1 != 0),
            r.mip == ((self.words()[0] >> 51u64) as u32) & 0xF,
            r.tile == ((self.words()[0] >> 48u64) as u32) & 0x7,
            r.yl@ == ((self.words()[0] >> 32u64) as u32) & 0x3FFF,
            r.ym@ == ((self.words()[0] >> 16u64) as u32) & 0x3FFF,
            r.yh@ == (self.words()[0] as u32) & 0x3FFF,
            r.xl@ == (self.words()[1] >> 32u64) as u32,
            r.xm@ == (self.words()[3] >> 32u64) as u32,
            r.xh@ == (self.words()[2] >> 32u64) as u32,
            r.dl@ == self.words()[1] as u32,
            r.dm@ == self.words()[3] as u32,
            r.dh@ == self.words()[2] as u32,
    {
        TriangleBaseFields {
            is_right_major: self.is_right_major(),
            mip: self.mip(),
            tile: self.tile(),
            yl: self.yl(),
            ym: self.ym(),
            yh: self.yh(),
            xl: self.xl(),
            xm: self.xm(),
            xh: self.xh(),
            dl: self.dl(),
            dm: self.dm(),
            dh: self.dh(),
        }
    }
}

/// The decoded fields of a `TriangleBase`; its `Debug` lists them.
#[derive(Clone, Copy, Debug, PartialEq, Eq)]
pub struct TriangleBaseFields {
    pub is_right_major: bool,
    pub mip: u32,
    pub tile: u32,
    pub yl: I12_2,
    pub ym: I12_2,
    pub yh: I12_2,
    pub xl: I16_16,
    pub xm: I16_16,
    pub xh: I16_16,
    pub dl: I16_16,
    pub dm: I16_16,
    pub dh: I16_16,
}


/// SetColorImage/SetTextureImage payload: address bits 25..=0, width 43..=32, pixel size
/// 52..=51, format 55..=53.
pub open spec fn image_payload(format: Format, pixel_size: PixelSize, width: u16, address: usize)
    -> u64 {
    ((address as u64) & 0x3FF_FFFFu64) | ((width as u64) << 32u64) | (pixel_size.spec_value()
        << 51u64) | (format.spec_value() << 53u64)
}

/// Shared payload of SetTileSize / LoadTile / LoadTlut / LoadBlock: two 12-bit corners plus a
/// tile index.
pub open spec fn tile_rect_payload(tile: u8, sl: u16, tl: u16, sh: u16, th: u16) -> u64 {
    (((sl as u64) & 0xFFFu64) << 44u64) | (((tl as u64) & 0xFFFu64) << 32u64) | (((tile as u64)
        & 7u64) << 24u64) | (((sh as u64) & 0xFFFu64) << 12u64) | ((th as u64) & 0xFFFu64)
}

/// SetTile payload.
pub open spec fn tile_payload(
    format: Format,
    pixel_size: PixelSize,
    line: u16,
    tmem: u16,
    tile: u8,
    palette: u8,
    clamp_mirror_t: (bool, bool),
    mask_shift_t: (u8, u8),
    clamp_mirror_s: (bool, bool),
    mask_shift_s: (u8, u8),
) -> u64 {
    (format.spec_value() << 53u64) | (pixel_size.spec_value() << 51u64) | (((line as u64)
        & 0x1FFu64) << 41u64) | (((tmem as u64) & 0x1FFu64) << 32u64) | (((tile as u64) & 7u64)
        << 24u64) | (((palette as u64) & 0xFu64) << 20u64) | (bit(clamp_mirror_t.0) << 19u64) | (
    bit(clamp_mirror_t.1) << 18u64) | (((mask_shift_t.0 as u64) & 0xFu64) << 14u64) | (((
    mask_shift_t.1 as u64) & 0xFu64) << 10u64) | (bit(clamp_mirror_s.0) << 9u64) | (bit(
        clamp_mirror_s.1,
    ) << 8u64) | (((mask_shift_s.0 as u64) & 0xFu64) << 4u64) | ((mask_shift_s.1 as u64) & 0xFu64)
}

pub open spec fn bit(b: bool) -> u64 {
    if b {
        1
    } else {
        0
    }
}

/// TextureRectangle's second word: s 63..=48, t 47..=32, dsdx 31..=16, dtdy 15..=0.
pub open spec fn texture_coords(s: u16, t: u16, dsdx: u16, dtdy: u16) -> u64 {
    ((s as u64) << 48u64) | ((t as u64) << 32u64) | ((dsdx as u64) << 16u64) | (dtdy as u64)
}

fn bool_bit(b: bool) -> (r: u64)
    ensures
        r == bit(b),
{
    if b {
        1
    } else {
        0
    }
}

/// An RDP command stream under construction (at most `INSTRUCTION_STREAM_SIZE` words).
pub struct RDPAssembler {
    data: Vec<u64>,
}

impl View for RDPAssembler {
    type V = Seq<u64>;

    closed spec fn view(&self) -> Seq<u64> {
        self.data@
    }
}

impl RDPAssembler {
    pub fn new() -> (r: RDPAssembler)
        ensures
            r@ == Seq::<u64>::empty(),
    {
        RDPAssembler { data: Vec::new() }
    }

    /// Number of command words written so far
    pub fn len(&self) -> (r: usize)
        ensures
            r == self@.len(),
    {
        self.data.len()
    }

    /// Reads back a previously written command word (e.g. to feed the identical stream into the
    /// soft-RDP)
    pub fn word(&mut self, index: usize) -> (r: u64)
        requires
            index < old(self)@.len(),
        ensures
            r == old(self)@[index as int],
            final(self)@ == old(self)@,
    {
        self.data[index]
    }

    /// All words written so far.
    pub fn words(&self) -> (r: &Vec<u64>)
        ensures
            r@ == self@,
    {
        &self.data
    }

    fn write(&mut self, value: u64)
        requires
            old(self)@.len() < INSTRUCTION_STREAM_SIZE,
        ensures
            final(self)@ == old(self)@.push(value),
    {
        self.data.push(value);
    }

    fn write_command(&mut self, command: RDPCommand, value: u64)
        requires
            old(self)@.len() < INSTRUCTION_STREAM_SIZE,
            value >> 56u64 == 0,
        ensures
            final(self)@ == old(self)@.push(command_word(command, value)),
    {
        self.write((command.value() << 56u64) | value);
    }

    pub fn set_scissor(&mut self, value: &RDPRectangle)
        requires
            old(self)@.len() < INSTRUCTION_STREAM_SIZE,
        ensures
            final(self)@ == old(self)@.push(
                command_word(
                    RDPCommand::SetScissor,
                    rect_payload(
                        value.spec_left(),
                        value.spec_top(),
                        value.spec_right(),
                        value.spec_bottom(),
                    ),
                ),
            ),
    {
        let payload = RDPRectangle::pack(value.left, value.top, value.right, value.bottom);
        self.write_command(RDPCommand::SetScissor, payload);
    }

    pub fn sync_full(&mut self)
        requires
            old(self)@.len() < INSTRUCTION_STREAM_SIZE,
        ensures
            final(self)@ == old(self)@.push(command_word(RDPCommand::SyncFull, 0)),
    {
        proof {
            lemma_masks(0, 0);
        }
        self.write_command(RDPCommand::SyncFull, 0);
    }

    pub fn sync_pipe(&mut self)
        requires
            old(self)@.len() < INSTRUCTION_STREAM_SIZE,
        ensures
            final(self)@ == old(self)@.push(command_word(RDPCommand::SyncPipe, 0)),
    {
        proof {
            lemma_masks(0, 0);
        }
        self.write_command(RDPCommand::SyncPipe, 0);
    }

    pub fn set_blendcolor(&mut self, color: ARGB8888)
        requires
            old(self)@.len() < INSTRUCTION_STREAM_SIZE,
        ensures
            final(self)@ == old(self)@.push(command_word(RDPCommand::SetBlendColor, color@ as u64)),
    {
        let v = color.raw_value() as u64;
        proof {
            lemma_masks(0, v);
        }
        self.write_command(RDPCommand::SetBlendColor, v);
    }

    pub fn set_fillcolor32(&mut self, color: ARGB8888)
        requires
            old(self)@.len() < INSTRUCTION_STREAM_SIZE,
        ensures
            final(self)@ == old(self)@.push(command_word(RDPCommand::SetFillColor, color@ as u64)),
    {
        let v = color.raw_value() as u64;
        proof {
            lemma_masks(0, v);
        }
        self.write_command(RDPCommand::SetFillColor, v);
    }

    /// Two 16-bit pixels: `color1` in bits 15..=0, `color2` in bits 31..=16.
    pub fn set_fillcolor16(&mut self, color1: RGBA5551, color2: RGBA5551)
        requires
            old(self)@.len() < INSTRUCTION_STREAM_SIZE,
        ensures
            final(self)@ == old(self)@.push(
                command_word(
                    RDPCommand::SetFillColor,
                    ((color1@ as u32) | ((color2@ as u32) << 16u32)) as u64,
                ),
            ),
    {
        let v = ((color1.raw_value() as u32) | ((color2.raw_value() as u32) << 16u32)) as u64;
        proof {
            lemma_masks(0, v);
        }
        self.write_command(RDPCommand::SetFillColor, v);
    }

    pub fn set_othermode(&mut self, othermode: Othermode)
        requires
            old(self)@.len() < INSTRUCTION_STREAM_SIZE,
        ensures
            final(self)@ == old(self)@.push(command_word(RDPCommand::SetOtherMode, othermode@)),
    {
        self.write_command(RDPCommand::SetOtherMode, othermode.raw_value());
    }

    /// SetColorImage for a framebuffer starting at the given physical address.
    pub fn set_framebuffer_image(
        &mut self,
        format: Format,
        pixel_size: PixelSize,
        width: U12,
        start_physical: usize,
    )
        requires
            old(self)@.len() < INSTRUCTION_STREAM_SIZE,
        ensures
            final(self)@ == old(self)@.push(
                command_word(
                    RDPCommand::SetFramebufferImage,
                    image_payload(format, pixel_size, width@, start_physical),
                ),
            ),
    {
        let value = Self::image_value(format, pixel_size, width, start_physical);
        self.write_command(RDPCommand::SetFramebufferImage, value);
    }

    fn image_value(format: Format, pixel_size: PixelSize, width: U12, start_physical: usize) -> (r:
        u64)
        ensures
            r == image_payload(format, pixel_size, width@, start_physical),
            r >> 56u64 == 0,
    {
        let a = start_physical as u64;
        let w = width.value() as u64;
        let p = pixel_size.value();
        let f = format.value();
        assert(w < 0x1000 && p < 4 && f < 8 ==> ((a & 0x3FF_FFFFu64) | (w << 32u64) | (p << 51u64)
            | (f << 53u64)) >> 56u64 == 0) by (bit_vector);
        (a & 0x3FF_FFFFu64) | (w << 32u64) | (p << 51u64) | (f << 53u64)
    }

    pub fn filled_triangle(&mut self, base: &TriangleBase)
        requires
            old(self)@.len() + 4 <= INSTRUCTION_STREAM_SIZE,
            base.words()[0] >> 56u64 == 0,
        ensures
            final(self)@ == old(self)@ + seq![
                command_word(RDPCommand::FilledTriangle, base.words()[0]),
                base.words()[1],
                base.words()[2],
                base.words()[3],
            ],
    {
        self.write_command(RDPCommand::FilledTriangle, base.data[0]);
        self.write(base.data[1]);
        self.write(base.data[2]);
        self.write(base.data[3]);
        assert(self@ =~= old(self)@ + seq![
            command_word(RDPCommand::FilledTriangle, base.words()[0]),
            base.words()[1],
            base.words()[2],
            base.words()[3],
        ]);
    }

    /// Shaded triangle: the edge words followed by the 8 shade coefficient words
    pub fn shaded_triangle(&mut self, base: &TriangleBase, shade: &[u64; 8])
        requires
            old(self)@.len() + 12 <= INSTRUCTION_STREAM_SIZE,
            base.words()[0] >> 56u64 == 0,
        ensures
            final(self)@ == old(self)@ + seq![
                command_word(RDPCommand::ShadedTriangle, base.words()[0]),
                base.words()[1],
                base.words()[2],
                base.words()[3],
            ] + shade@,
    {
        self.write_command(RDPCommand::ShadedTriangle, base.data[0]);
        self.write(base.data[1]);
        self.write(base.data[2]);
        self.write(base.data[3]);
        let ghost edges = self@;
        let mut i: usize = 0;
        while i < 8
            invariant
                i <= 8,
                edges.len() + 8 <= INSTRUCTION_STREAM_SIZE,
                shade@.len() == 8,
                self@ == edges + shade@.take(i as int),
            decreases 8 - i,
        {
            self.write(shade[i]);
            assert(shade@.take(i + 1) =~= shade@.take(i as int).push(shade@[i as int]));
            i += 1;
        }
        assert(shade@.take(8) =~= shade@);
        assert(edges =~= old(self)@ + seq![
            command_word(RDPCommand::ShadedTriangle, base.words()[0]),
            base.words()[1],
            base.words()[2],
            base.words()[3],
        ]);
    }

    /// SetCombine from the raw 56-bit mux configuration
    pub fn set_combine_raw(&mut self, value: u64)
        requires
            old(self)@.len() < INSTRUCTION_STREAM_SIZE,
            value >> 56u64 == 0,
        ensures
            final(self)@ == old(self)@.push(command_word(RDPCommand::SetCombine, value)),
    {
        self.write_command(RDPCommand::SetCombine, value);
    }

    /// SetTextureImage for a texture starting at the given physical address.
    pub fn set_texture_image(
        &mut self,
        format: Format,
        pixel_size: PixelSize,
        width_minus_one: U12,
        start_physical: usize,
    )
        requires
            old(self)@.len() < INSTRUCTION_STREAM_SIZE,
        ensures
            final(self)@ == old(self)@.push(
                command_word(
                    RDPCommand::SetTextureImage,
                    image_payload(format, pixel_size, width_minus_one@, start_physical),
                ),
            ),
    {
        let value = Self::image_value(format, pixel_size, width_minus_one, start_physical);
        self.write_command(RDPCommand::SetTextureImage, value);
    }

    /// SetTile. `line` is the tile's row stride in 64-bit words, `tmem` its start in 64-bit words.
    pub fn set_tile(
        &mut self,
        format: Format,
        pixel_size: PixelSize,
        line: u16,
        tmem: u16,
        tile: u8,
        palette: u8,
        clamp_mirror_t: (bool, bool),
        mask_shift_t: (u8, u8),
        clamp_mirror_s: (bool, bool),
        mask_shift_s: (u8, u8),
    )
        requires
            old(self)@.len() < INSTRUCTION_STREAM_SIZE,
        ensures
            final(self)@ == old(self)@.push(
                command_word(
                    RDPCommand::SetTile,
                    tile_payload(
                        format,
                        pixel_size,
                        line,
                        tmem,
                        tile,
                        palette,
                        clamp_mirror_t,
                        mask_shift_t,
                        clamp_mirror_s,
                        mask_shift_s,
                    ),
                ),
            ),
    {
        let f = format.value();
        let p = pixel_size.value();
        let (ct0, ct1) = (bool_bit(clamp_mirror_t.0), bool_bit(clamp_mirror_t.1));
        let (cs0, cs1) = (bool_bit(clamp_mirror_s.0), bool_bit(clamp_mirror_s.1));
        let (mt0, mt1) = (mask_shift_t.0 as u64, mask_shift_t.1 as u64);
        let (ms0, ms1) = (mask_shift_s.0 as u64, mask_shift_s.1 as u64);
        let (l, tm, ti, pa) = (line as u64, tmem as u64, tile as u64, palette as u64);
        let value = (f << 53u64) | (p << 51u64) | ((l & 0x1FFu64) << 41u64) | ((tm & 0x1FFu64)
            << 32u64) | ((ti & 7u64) << 24u64) | ((pa & 0xFu64) << 20u64) | (ct0 << 19u64) | (ct1
            << 18u64) | ((mt0 & 0xFu64) << 14u64) | ((mt1 & 0xFu64) << 10u64) | (cs0 << 9u64) | (
        cs1 << 8u64) | ((ms0 & 0xFu64) << 4u64) | (ms1 & 0xFu64);
        assert(f < 8 && p < 4 && ct0 < 2 && ct1 < 2 && cs0 < 2 && cs1 < 2 ==> ((f << 53u64) | (p
            << 51u64) | ((l & 0x1FFu64) << 41u64) | ((tm & 0x1FFu64) << 32u64) | ((ti & 7u64)
            << 24u64) | ((pa & 0xFu64) << 20u64) | (ct0 << 19u64) | (ct1 << 18u64) | ((mt0 & 0xFu64)
            << 14u64) | ((mt1 & 0xFu64) << 10u64) | (cs0 << 9u64) | (cs1 << 8u64) | ((ms0 & 0xFu64)
            << 4u64) | (ms1 & 0xFu64)) >> 56u64 == 0) by (bit_vector);
        self.write_command(RDPCommand::SetTile, value);
    }

    /// Shared layout of SetTileSize / LoadTile / LoadTlut: two 10.2 corners plus a tile index
    fn tile_rect_command(&mut self, command: RDPCommand, tile: u8, sl: u16, tl: u16, sh: u16, th: u16)
        requires
            old(self)@.len() < INSTRUCTION_STREAM_SIZE,
        ensures
            final(self)@ == old(self)@.push(
                command_word(command, tile_rect_payload(tile, sl, tl, sh, th)),
            ),
    {
        let (a, b, t, c, d) = (sl as u64, tl as u64, tile as u64, sh as u64, th as u64);
        let value = ((a & 0xFFFu64) << 44u64) | ((b & 0xFFFu64) << 32u64) | ((t & 7u64) << 24u64)
            | ((c & 0xFFFu64) << 12u64) | (d & 0xFFFu64);
        assert((((a & 0xFFFu64) << 44u64) | ((b & 0xFFFu64) << 32u64) | ((t & 7u64) << 24u64) | ((c
            & 0xFFFu64) << 12u64) | (d & 0xFFFu64)) >> 56u64 == 0) by (bit_vector);
        self.write_command(command, value);
    }

    pub fn set_tile_size(&mut self, tile: u8, sl: u16, tl: u16, sh: u16, th: u16)
        requires
            old(self)@.len() < INSTRUCTION_STREAM_SIZE,
        ensures
            final(self)@ == old(self)@.push(
                command_word(RDPCommand::SetTileSize, tile_rect_payload(tile, sl, tl, sh, th)),
            ),
    {
        self.tile_rect_command(RDPCommand::SetTileSize, tile, sl, tl, sh, th);
    }

    pub fn load_tile(&mut self, tile: u8, sl: u16, tl: u16, sh: u16, th: u16)
        requires
            old(self)@.len() < INSTRUCTION_STREAM_SIZE,
        ensures
            final(self)@ == old(self)@.push(
                command_word(RDPCommand::LoadTile, tile_rect_payload(tile, sl, tl, sh, th)),
            ),
    {
        self.tile_rect_command(RDPCommand::LoadTile, tile, sl, tl, sh, th);
    }

    pub fn load_tlut(&mut self, tile: u8, sl: u16, tl: u16, sh: u16, th: u16)
        requires
            old(self)@.len() < INSTRUCTION_STREAM_SIZE,
        ensures
            final(self)@ == old(self)@.push(
                command_word(RDPCommand::LoadPalette, tile_rect_payload(tile, sl, tl, sh, th)),
            ),
    {
        self.tile_rect_command(RDPCommand::LoadPalette, tile, sl, tl, sh, th);
    }

    /// LoadBlock: `texels` is the count minus one, `dxt` the per-line T step
    pub fn load_block(&mut self, tile: u8, sl: u16, tl: u16, texels: u16, dxt: u16)
        requires
            old(self)@.len() < INSTRUCTION_STREAM_SIZE,
        ensures
            final(self)@ == old(self)@.push(
                command_word(RDPCommand::LoadBlock, tile_rect_payload(tile, sl, tl, texels, dxt)),
            ),
    {
        self.tile_rect_command(RDPCommand::LoadBlock, tile, sl, tl, texels, dxt);
    }

    pub fn sync_load(&mut self)
        requires
            old(self)@.len() < INSTRUCTION_STREAM_SIZE,
        ensures
            final(self)@ == old(self)@.push(command_word(RDPCommand::SyncLoad, 0)),
    {
        proof {
            lemma_masks(0, 0);
        }
        self.write_command(RDPCommand::SyncLoad, 0);
    }

    pub fn sync_tile(&mut self)
        requires
            old(self)@.len() < INSTRUCTION_STREAM_SIZE,
        ensures
            final(self)@ == old(self)@.push(command_word(RDPCommand::TileSync, 0)),
    {
        proof {
            lemma_masks(0, 0);
        }
        self.write_command(RDPCommand::TileSync, 0);
    }

    /// TextureRectangle: screen rect in 10.2, texture start in 10.5 and steps in 5.10
    pub fn texture_rectangle(
        &mut self,
        tile: u8,
        rect: &RDPRectangle,
        s: u16,
        t: u16,
        dsdx: u16,
        dtdy: u16,
    )
        requires
            old(self)@.len() + 2 <= INSTRUCTION_STREAM_SIZE,
        ensures
            final(self)@ == old(self)@ + seq![
                command_word(
                    RDPCommand::TexturedRectangle,
                    rect_payload(
                        rect.spec_right(),
                        rect.spec_bottom(),
                        rect.spec_left(),
                        rect.spec_top(),
                    ) | (((tile as u64) & 7u64) << 24u64),
                ),
                texture_coords(s, t, dsdx, dtdy),
            ],
    {
        let corners = RDPRectangle::pack(rect.right, rect.bottom, rect.left, rect.top);
        let ti = tile as u64;
        let value = corners | ((ti & 7u64) << 24u64);
        assert((corners | ((ti & 7u64) << 24u64)) >> 56u64 == 0) by (bit_vector)
            requires
                corners >> 56u64 == 0,
        ;
        self.write_command(RDPCommand::TexturedRectangle, value);
        let (sv, tv, dx, dy) = (s as u64, t as u64, dsdx as u64, dtdy as u64);
        self.write((sv << 48u64) | (tv << 32u64) | (dx << 16u64) | dy);
        assert(self@ =~= old(self)@ + seq![
            command_word(RDPCommand::TexturedRectangle, value),
            texture_coords(s, t, dsdx, dtdy),
        ]);
    }

    pub fn filled_rectangle(&mut self, value: &RDPRectangle)
        requires
            old(self)@.len() < INSTRUCTION_STREAM_SIZE,
        ensures
            final(self)@ == old(self)@.push(
                command_word(
                    RDPCommand::FilledRectangle,
                    rect_payload(
                        value.spec_right(),
                        value.spec_bottom(),
                        value.spec_left(),
                        value.spec_top(),
                    ),
                ),
            ),
    {
        let payload = RDPRectangle::pack(value.right, value.bottom, value.left, value.top);
        self.write_command(RDPCommand::FilledRectangle, payload);
    }
}


/// A command word carries its command's opcode where the soft RDP decodes it.
pub proof fn opcode_of_command_word(command: RDPCommand, value: u64)
    requires
        value >> 56u64 == 0,
    ensures
        spec_opcode(command_word(command, value)) == command.spec_value(),
{
    let c = command.spec_value();
    assert(c < 64 && value >> 56u64 == 0 ==> (((c << 56u64) | value) >> 56u64) & 0x3Fu64 == c)
        by (bit_vector);
}

/// Four 12-bit fields packed by `rect_payload` come back out of the positions the soft RDP
/// reads them from.
pub proof fn rect_payload_fields(a: u32, b: u32, c: u32, d: u32, command: RDPCommand)
    requires
        a < 0x1000 && b < 0x1000 && c < 0x1000 && d < 0x1000,
    ensures
        field12(command_word(command, rect_payload(a, b, c, d)), 44) == a,
        field12(command_word(command, rect_payload(a, b, c, d)), 32) == b,
        field12(command_word(command, rect_payload(a, b, c, d)), 12) == c,
        field12(command_word(command, rect_payload(a, b, c, d)), 0) == d,
        rect_payload(a, b, c, d) >> 56u64 == 0,
{
    let k = command.spec_value();
    let (a6, b6, c6, d6) = (a as u64, b as u64, c as u64, d as u64);
    assert(k < 64 && a6 < 0x1000 && b6 < 0x1000 && c6 < 0x1000 && d6 < 0x1000 ==> {
        let w = (k << 56u64) | ((a6 << 44u64) | (b6 << 32u64) | (c6 << 12u64) | d6);
        &&& (w >> 44u64) & 0xFFFu64 == a6
        &&& (w >> 32u64) & 0xFFFu64 == b6
        &&& (w >> 12u64) & 0xFFFu64 == c6
        &&& (w >> 0u64) & 0xFFFu64 == d6
        &&& ((a6 << 44u64) | (b6 << 32u64) | (c6 << 12u64) | d6) >> 56u64 == 0
    }) by (bit_vector);
}

/// The scissor set by `set_scissor` is what the soft RDP's state reports back.
pub proof fn scissor_round_trip(s: State, m: Map<u32, u8>, rect: RDPRectangle)
    requires
        rect.spec_left() < 0x1000 && rect.spec_top() < 0x1000 && rect.spec_right() < 0x1000
            && rect.spec_bottom() < 0x1000,
    ensures
        ({
            let word = command_word(
                RDPCommand::SetScissor,
                rect_payload(rect.spec_left(), rect.spec_top(), rect.spec_right(), rect.spec_bottom()),
            );
            let (s2, unhandled, m2) = command_step(s, m, word);
            &&& s2.spec_scissor_bounds() == (
                rect.spec_left(),
                rect.spec_top(),
                rect.spec_right(),
                rect.spec_bottom(),
            )
            &&& !unhandled
            &&& m2 == m
        }),
{
    rect_payload_fields(
        rect.spec_left(),
        rect.spec_top(),
        rect.spec_right(),
        rect.spec_bottom(),
        RDPCommand::SetScissor,
    );
    opcode_of_command_word(
        RDPCommand::SetScissor,
        rect_payload(rect.spec_left(), rect.spec_top(), rect.spec_right(), rect.spec_bottom()),
    );
}

/// The rectangle `filled_rectangle` encodes is the one the soft RDP rasterizes: xl/yl is the
/// lower-right corner, xh/yh the upper-left.
pub proof fn filled_rectangle_round_trip(rect: RDPRectangle)
    requires
        rect.spec_left() < 0x1000 && rect.spec_top() < 0x1000 && rect.spec_right() < 0x1000
            && rect.spec_bottom() < 0x1000,
    ensures
        ({
            let word = command_word(
                RDPCommand::FilledRectangle,
                rect_payload(rect.spec_right(), rect.spec_bottom(), rect.spec_left(), rect.spec_top()),
            );
            &&& spec_opcode(word) == crate::cmd::op::FILL_RECTANGLE
            &&& rect_corners(word) == (
                rect.spec_right() as int,
                rect.spec_bottom() as int,
                rect.spec_left() as int,
                rect.spec_top() as int,
            )
        }),
{
    rect_payload_fields(
        rect.spec_right(),
        rect.spec_bottom(),
        rect.spec_left(),
        rect.spec_top(),
        RDPCommand::FilledRectangle,
    );
    opcode_of_command_word(
        RDPCommand::FilledRectangle,
        rect_payload(rect.spec_right(), rect.spec_bottom(), rect.spec_left(), rect.spec_top()),
    );
}

/// The color image set by `set_framebuffer_image` is what the soft RDP's state reports back:
/// the address's low 26 bits, the pixel size, and the low 10 bits of the width.
pub proof fn framebuffer_image_round_trip(
    s: State,
    m: Map<u32, u8>,
    format: Format,
    pixel_size: PixelSize,
    width: u16,
    address: usize,
)
    requires
        width < 0x1000,
    ensures
        ({
            let word = command_word(
                RDPCommand::SetFramebufferImage,
                image_payload(format, pixel_size, width, address),
            );
            let (s2, unhandled, m2) = command_step(s, m, word);
            &&& s2.spec_color_image_addr() == ((address as u64) & 0x3FF_FFFFu64) as u32
            &&& s2.spec_color_image_size() == pixel_size.spec_value() as u32
            &&& s2.spec_color_image_width() == (width & 0x3FF) as u32
            &&& !unhandled
            &&& m2 == m
        }),
{
    let a = address as u64;
    let w = width as u64;
    let p = pixel_size.spec_value();
    let f = format.spec_value();
    let payload = image_payload(format, pixel_size, width, address);
    assert(w < 0x1000 && p < 4 && f < 8 ==> {
        let v = (a & 0x3FF_FFFFu64) | (w << 32u64) | (p << 51u64) | (f << 53u64);
        let word = (63u64 << 56u64) | v;
        &&& v >> 56u64 == 0
        &&& word & 0x03FF_FFFFu64 == a & 0x3FF_FFFFu64
        &&& (word >> 51u64) & 3u64 == p
        &&& (word >> 32u64) & 0x3FFu64 == w & 0x3FF
    }) by (bit_vector);
    opcode_of_command_word(RDPCommand::SetFramebufferImage, payload);
    let word = command_word(RDPCommand::SetFramebufferImage, payload);
    assert((word & 0x03FF_FFFFu64) as u32 == ((address as u64) & 0x3FF_FFFFu64) as u32);
    assert(((word >> 51u64) & 3u64) as u32 == p as u32);
    assert(((word >> 32u64) & 0x3FFu64) as u32 == (width & 0x3FF) as u32) by {
        lemma_masks(width as u32, 0);
    }
}

/// The edge words of a triangle built by `TriangleBase::new` decode, on the soft RDP side, to
/// the same edges: 12.2 y values sign-extended from 14 bits, x starts shifted two more fraction
/// bits, slopes as written.
pub proof fn triangle_round_trip(
    is_right_major: bool,
    mip: u32,
    tile: u32,
    yl: u32,
    ym: u32,
    yh: u32,
    xl: u32,
    xm: u32,
    xh: u32,
    dl: u32,
    dm: u32,
    dh: u32,
)
    requires
        mip <= 0xF,
        tile <= 0x7,
        yl < 0x4000 && ym < 0x4000 && yh < 0x4000,
    ensures
        ({
            let first = triangle_first(is_right_major, mip, tile, yh, ym, yl);
            let e = decode_edges(
                seq![
                    command_word(RDPCommand::FilledTriangle, first),
                    edge_word(xl, dl),
                    edge_word(xh, dh),
                    edge_word(xm, dm),
                ],
            );
            &&& first >> 56u64 == 0
            &&& e.right_major == is_right_major
            &&& e.yl as int == spec_sign_extend_14(yl)
            &&& e.ym as int == spec_sign_extend_14(ym)
            &&& e.yh as int == spec_sign_extend_14(yh)
            &&& e.xl == (xl as i32) << 2u32 && e.dl == dl as i32
            &&& e.xm == (xm as i32) << 2u32 && e.dm == dm as i32
            &&& e.xh == (xh as i32) << 2u32 && e.dh == dh as i32
        }),
{
    let rm: u64 = if is_right_major {
        1
    } else {
        0
    };
    let (mp, tl, l, mm, h) = (mip as u64, tile as u64, yl as u64, ym as u64, yh as u64);
    assert(rm < 2 && mp < 16 && tl < 8 && l < 0x4000 && mm < 0x4000 && h < 0x4000 ==> {
        let v = (rm << 55u64) | (mp << 51u64) | (tl << 48u64) | (l << 32u64) | (mm << 16u64) | h;
        let word = (8u64 << 56u64) | v;
        &&& v >> 56u64 == 0
        &&& ((word >> 55u64) & 1u64 != 0) == (rm == 1)
        &&& (word >> 32u64) & 0x3FFFu64 == l
        &&& (word >> 16u64) & 0x3FFFu64 == mm
        &&& word & 0x3FFFu64 == h
    }) by (bit_vector);
    assert(forall|x: u32, d: u32| #[trigger] edge_word(x, d) >> 32u64 == x as u64 && (edge_word(x, d)
        as u32) == d) by {
        assert forall|x: u32, d: u32| #[trigger] edge_word(x, d) >> 32u64 == x as u64 && (edge_word(x, d)
            as u32) == d by {
            assert((((x as u64) << 32u64) | (d as u64)) >> 32u64 == x as u64 && ((((x as u64)
                << 32u64) | (d as u64)) as u32) == d) by (bit_vector);
        }
    }
    let first = triangle_first(is_right_major, mip, tile, yh, ym, yl);
    assert(first == (rm << 55u64) | (mp << 51u64) | (tl << 48u64) | (l << 32u64) | (mm << 16u64) | h);
    assert(edge_word(xl, dl) >> 32u64 == xl as u64);
    assert(edge_word(xh, dh) >> 32u64 == xh as u64);
    assert(edge_word(xm, dm) >> 32u64 == xm as u64);
}

/// The second word of a textured rectangle carries its fields where the RDP reads them: s in
/// bits 63..=48, t in 47..=32, dsdx in 31..=16 and dtdy in 15..=0.
pub proof fn texture_coords_fields(s: u16, t: u16, dsdx: u16, dtdy: u16)
    ensures
        texture_coords(s, t, dsdx, dtdy) >> 48u64 == s as u64,
        (texture_coords(s, t, dsdx, dtdy) >> 32u64) & 0xFFFFu64 == t as u64,
        (texture_coords(s, t, dsdx, dtdy) >> 16u64) & 0xFFFFu64 == dsdx as u64,
        texture_coords(s, t, dsdx, dtdy) & 0xFFFFu64 == dtdy as u64,
{
    let (a, b, c, d) = (s as u64, t as u64, dsdx as u64, dtdy as u64);
    assert(a < 0x10000 && b < 0x10000 && c < 0x10000 && d < 0x10000 ==> {
        let w = (a << 48u64) | (b << 32u64) | (c << 16u64) | d;
        &&& w >> 48u64 == a
        &&& (w >> 32u64) & 0xFFFFu64 == b
        &&& (w >> 16u64) & 0xFFFFu64 == c
        &&& w & 0xFFFFu64 == d
    }) by (bit_vector);
}

/// Every command the builder writes carries the opcode the software RDP decodes for that
/// command, and distinct commands carry distinct opcodes.
pub proof fn command_numbers_match_decoder(a: RDPCommand, b: RDPCommand)
    ensures
        RDPCommand::FilledTriangle.spec_value() == crate::cmd::op::FILL_TRIANGLE as u64,
        RDPCommand::DepthFilledTriangle.spec_value() == crate::cmd::op::FILL_Z_TRIANGLE as u64,
        RDPCommand::TexturedTriangle.spec_value() == crate::cmd::op::TEXTURE_TRIANGLE as u64,
        RDPCommand::TexturedDepthTriangle.spec_value() == crate::cmd::op::TEXTURE_Z_TRIANGLE as u64,
        RDPCommand::ShadedTriangle.spec_value() == crate::cmd::op::SHADE_TRIANGLE as u64,
        RDPCommand::ShadedDepthTriangle.spec_value() == crate::cmd::op::SHADE_Z_TRIANGLE as u64,
        RDPCommand::ShadedTexturedTriangle.spec_value() == crate::cmd::op::SHADE_TEXTURE_TRIANGLE as u64,
        RDPCommand::ShadedTexturedDepthTriangle.spec_value() == crate::cmd::op::SHADE_TEXTURE_Z_TRIANGLE as u64,
        RDPCommand::TexturedRectangle.spec_value() == crate::cmd::op::TEXTURE_RECTANGLE as u64,
        RDPCommand::FlippedTexturedRectangle.spec_value() == crate::cmd::op::TEXTURE_RECTANGLE_FLIP as u64,
        RDPCommand::SyncLoad.spec_value() == crate::cmd::op::SYNC_LOAD as u64,
        RDPCommand::SyncPipe.spec_value() == crate::cmd::op::SYNC_PIPE as u64,
        RDPCommand::TileSync.spec_value() == crate::cmd::op::SYNC_TILE as u64,
        RDPCommand::SyncFull.spec_value() == crate::cmd::op::SYNC_FULL as u64,
        RDPCommand::SetKeyColorGreenBlue.spec_value() == crate::cmd::op::SET_KEY_GB as u64,
        RDPCommand::SetKeyColorRed.spec_value() == crate::cmd::op::SET_KEY_R as u64,
        RDPCommand::SetConvert.spec_value() == crate::cmd::op::SET_CONVERT as u64,
        RDPCommand::SetScissor.spec_value() == crate::cmd::op::SET_SCISSOR as u64,
        RDPCommand::SetPrimitiveDepth.spec_value() == crate::cmd::op::SET_PRIM_DEPTH as u64,
        RDPCommand::SetOtherMode.spec_value() == crate::cmd::op::SET_OTHER_MODES as u64,
        RDPCommand::LoadPalette.spec_value() == crate::cmd::op::LOAD_TLUT as u64,
        RDPCommand::SetTileSize.spec_value() == crate::cmd::op::SET_TILE_SIZE as u64,
        RDPCommand::LoadBlock.spec_value() == crate::cmd::op::LOAD_BLOCK as u64,
        RDPCommand::LoadTile.spec_value() == crate::cmd::op::LOAD_TILE as u64,
        RDPCommand::SetTile.spec_value() == crate::cmd::op::SET_TILE as u64,
        RDPCommand::FilledRectangle.spec_value() == crate::cmd::op::FILL_RECTANGLE as u64,
        RDPCommand::SetFillColor.spec_value() == crate::cmd::op::SET_FILL_COLOR as u64,
        RDPCommand::SetFogColor.spec_value() == crate::cmd::op::SET_FOG_COLOR as u64,
        RDPCommand::SetBlendColor.spec_value() == crate::cmd::op::SET_BLEND_COLOR as u64,
        RDPCommand::SetPrimitiveColor.spec_value() == crate::cmd::op::SET_PRIM_COLOR as u64,
        RDPCommand::SetEnvColor.spec_value() == crate::cmd::op::SET_ENV_COLOR as u64,
        RDPCommand::SetCombine.spec_value() == crate::cmd::op::SET_COMBINE as u64,
        RDPCommand::SetTextureImage.spec_value() == crate::cmd::op::SET_TEXTURE_IMAGE as u64,
        RDPCommand::SetDepthImage.spec_value() == crate::cmd::op::SET_MASK_IMAGE as u64,
        RDPCommand::SetFramebufferImage.spec_value() == crate::cmd::op::SET_COLOR_IMAGE as u64,
        a.spec_value() == b.spec_value() ==> a == b,
{
}

} // verus!
