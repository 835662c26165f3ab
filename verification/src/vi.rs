//! Video interface (VI) register values: the status word layout, the register program that
//! initializes a 320x240 16bpp display, and the address arithmetic for the framebuffer.
use vstd::prelude::*;
use crate::uint::{U4, U10};

verus! {

pub const WIDTH: u32 = 320;
pub const HEIGHT: u32 = 240;

/// Framebuffer type (status bits 1..=0); the value 1 is reserved.
#[derive(Clone, Copy, Debug, PartialEq, Eq, Structural)]
pub enum StatusFramebufferType {
    Off,
    Bits16,
    Bits32,
}

impl StatusFramebufferType {
    pub open spec fn spec_value(self) -> u32 {
        match self {
            StatusFramebufferType::Off => 0,
            StatusFramebufferType::Bits16 => 2,
            StatusFramebufferType::Bits32 => 3,
        }
    }

    pub fn value(self) -> (r: u32)
        ensures
            r == self.spec_value(),
    {
        match self {
            StatusFramebufferType::Off => 0,
            StatusFramebufferType::Bits16 => 2,
            StatusFramebufferType::Bits32 => 3,
        }
    }
}

/// The framebuffer type encoded in a status word, if the bits hold a defined one.
pub open spec fn framebuffer_type_of(raw: u32) -> Option<StatusFramebufferType> {
    let v = raw & 3;
    if v == 0 {
        Some(StatusFramebufferType::Off)
    } else if v == 2 {
        Some(StatusFramebufferType::Bits16)
    } else if v == 3 {
        Some(StatusFramebufferType::Bits32)
    } else {
        None
    }
}

/// A word with bit `n` set to `b`.
pub open spec fn set_bit(raw: u32, n: u32, b: bool) -> u32 {
    if b {
        raw | (1u32 << n)
    } else {
        raw & !(1u32 << n)
    }
}

/// VI_STATUS: framebuffer type 1..=0, gamma dither 2, gamma boost 3, serrate 6, anti-alias 8,
/// resample 9, pixel advance 15..=12.
#[derive(Clone, Copy, Debug, PartialEq, Eq, Structural)]
pub struct Status {
    raw: u32,
}

impl View for Status {
    type V = u32;

    closed spec fn view(&self) -> u32 {
        self.raw
    }
}

impl Status {
    pub fn new() -> (r: Status)
        ensures
            r@ == 0,
    {
        Status { raw: 0 }
    }

    pub fn new_with_raw_value(raw: u32) -> (r: Status)
        ensures
            r@ == raw,
    {
        Status { raw }
    }

    pub fn raw_value(self) -> (r: u32)
        ensures
            r == self@,
    {
        self.raw
    }

    pub fn framebuffer_type(self) -> (r: Option<StatusFramebufferType>)
        ensures
            r == framebuffer_type_of(self@),
    {
        match self.raw & 3 {
            0 => Some(StatusFramebufferType::Off),
            2 => Some(StatusFramebufferType::Bits16),
            3 => Some(StatusFramebufferType::Bits32),
            _ => None,
        }
    }

    pub fn with_framebuffer_type(self, value: StatusFramebufferType) -> (r: Status)
        ensures
            r@ == (self@ & !3u32) | value.spec_value(),
    {
        Status { raw: (self.raw & !3u32) | value.value() }
    }

    fn with_bit(self, n: u32, b: bool) -> (r: Status)
        requires
            n < 32,
        ensures
            r@ == set_bit(self@, n, b),
    {
        if b {
            Status { raw: self.raw | (1u32 << n) }
        } else {
            Status { raw: self.raw & !(1u32 << n) }
        }
    }

    pub fn with_gamma_dither(self, b: bool) -> (r: Status)
        ensures
            r@ == set_bit(self@, 2, b),
    {
        self.with_bit(2, b)
    }

    pub fn with_gamma_boost(self, b: bool) -> (r: Status)
        ensures
            r@ == set_bit(self@, 3, b),
    {
        self.with_bit(3, b)
    }

    pub fn with_serrate(self, b: bool) -> (r: Status)
        ensures
            r@ == set_bit(self@, 6, b),
    {
        self.with_bit(6, b)
    }

    pub fn with_anti_alias(self, b: bool) -> (r: Status)
        ensures
            r@ == set_bit(self@, 8, b),
    {
        self.with_bit(8, b)
    }

    pub fn with_resample(self, b: bool) -> (r: Status)
        ensures
            r@ == set_bit(self@, 9, b),
    {
        self.with_bit(9, b)
    }

    pub fn with_pixel_advance(self, value: U4) -> (r: Status)
        ensures
            r@ == (self@ & !0xF000u32) | ((value@ as u32) << 12u32),
    {
        Status { raw: (self.raw & !0xF000u32) | ((value.value() as u32) << 12u32) }
    }
}

/// VI_V_INTR: the row (bits 9..=0) at which the VI interrupts.
#[derive(Clone, Copy, Debug, PartialEq, Eq, Structural)]
pub struct VIIntr {
    raw: u32,
}

impl View for VIIntr {
    type V = u32;

    closed spec fn view(&self) -> u32 {
        self.raw
    }
}

impl VIIntr {
    pub fn new() -> (r: VIIntr)
        ensures
            r@ == 0,
    {
        VIIntr { raw: 0 }
    }

    pub fn with_row(self, row: U10) -> (r: VIIntr)
        ensures
            r@ == (self@ & !0x3FFu32) | (row@ as u32),
    {
        VIIntr { raw: (self.raw & !0x3FFu32) | (row.value() as u32) }
    }

    pub fn raw_value(self) -> (r: u32)
        ensures
            r == self@,
    {
        self.raw
    }
}

/// VI register offsets from the VI base.
#[derive(Clone, Copy, Debug, PartialEq, Eq, Structural)]
pub enum RegisterOffset {
    Status,
    DRAMAddress,
    HWidth,
    VIntr,
    Current,
    Timing,
    VSync,
    HSync,
    HSyncLeap,
    HVideo,
    VVideo,
    VBurst,
    XScale,
    YScale,
}

impl RegisterOffset {
    pub open spec fn spec_value(self) -> u32 {
        match self {
            RegisterOffset::Status => 0x00,
            RegisterOffset::DRAMAddress => 0x04,
            RegisterOffset::HWidth => 0x08,
            RegisterOffset::VIntr => 0x0C,
            RegisterOffset::Current => 0x10,
            RegisterOffset::Timing => 0x14,
            RegisterOffset::VSync => 0x18,
            RegisterOffset::HSync => 0x1C,
            RegisterOffset::HSyncLeap => 0x20,
            RegisterOffset::HVideo => 0x24,
            RegisterOffset::VVideo => 0x28,
            RegisterOffset::VBurst => 0x2C,
            RegisterOffset::XScale => 0x30,
            RegisterOffset::YScale => 0x34,
        }
    }

    /// The byte offset of the register.
    pub fn value(self) -> (r: u32)
        ensures
            r == self.spec_value(),
    {
        match self {
            RegisterOffset::Status => 0x00,
            RegisterOffset::DRAMAddress => 0x04,
            RegisterOffset::HWidth => 0x08,
            RegisterOffset::VIntr => 0x0C,
            RegisterOffset::Current => 0x10,
            RegisterOffset::Timing => 0x14,
            RegisterOffset::VSync => 0x18,
            RegisterOffset::HSync => 0x1C,
            RegisterOffset::HSyncLeap => 0x20,
            RegisterOffset::HVideo => 0x24,
            RegisterOffset::VVideo => 0x28,
            RegisterOffset::VBurst => 0x2C,
            RegisterOffset::XScale => 0x30,
            RegisterOffset::YScale => 0x34,
        }
    }
}

/// The status word the VI is initialized with: 16bpp, gamma dither and boost, serrate,
/// no anti-aliasing, resampling, pixel advance 3.
pub open spec fn init_status() -> u32 {
    0x3000 | (1u32 << 9u32) | (1u32 << 6u32) | (1u32 << 3u32) | (1u32 << 2u32) | 2
}

/// The register writes that initialize the VI for a 320x240 NTSC display, in order.
pub open spec fn init_program() -> Seq<(RegisterOffset, u32)> {
    seq![
        (RegisterOffset::Status, init_status()),
        (RegisterOffset::VIntr, 2u32),
        (RegisterOffset::Timing, 0x03E5_2239u32),
        (RegisterOffset::VSync, 0x0000_020Du32),
        (RegisterOffset::HSync, 0x0000_0C15u32),
        (RegisterOffset::HSyncLeap, 0x0C15_0C15u32),
        (RegisterOffset::HVideo, 0x006C_02ECu32),
        (RegisterOffset::VVideo, 0x0025_01FFu32),
        (RegisterOffset::VBurst, 0x000E_0204u32),
        (RegisterOffset::XScale, (0x100 * WIDTH / 160) as u32),
        (RegisterOffset::YScale, (0x100 * HEIGHT / 60) as u32),
    ]
}

/// The register writes that initialize the VI (performed by the caller, in order).
pub fn init_registers() -> (r: Vec<(RegisterOffset, u32)>)
    ensures
        r@ == init_program(),
{
    let status = Status::new().with_framebuffer_type(StatusFramebufferType::Bits16).with_gamma_dither(
        true,
    ).with_gamma_boost(true).with_serrate(true).with_anti_alias(false).with_resample(
        true,
    ).with_pixel_advance(U4::new(3)).raw_value();
    let intr = VIIntr::new().with_row(U10::new(2)).raw_value();
    assert(status == init_status() && intr == 2) by (bit_vector)
        requires
            intr == (0u32 & !0x3FFu32) | 2u32,
            status == (set_bit(
                set_bit(
                    set_bit(
                        set_bit(set_bit((0u32 & !3u32) | 2u32, 2u32, true), 3u32, true),
                        6u32,
                        true,
                    ),
                    8u32,
                    false,
                ),
                9u32,
                true,
            ) & !0xF000u32) | (3u32 << 12u32),
    ;
    let mut program: Vec<(RegisterOffset, u32)> = Vec::new();
    program.push((RegisterOffset::Status, status));
    program.push((RegisterOffset::VIntr, intr));
    program.push((RegisterOffset::Timing, 0x03E5_2239));
    program.push((RegisterOffset::VSync, 0x0000_020D));
    program.push((RegisterOffset::HSync, 0x0000_0C15));
    program.push((RegisterOffset::HSyncLeap, 0x0C15_0C15));
    program.push((RegisterOffset::HVideo, 0x006C_02EC));
    program.push((RegisterOffset::VVideo, 0x0025_01FF));
    program.push((RegisterOffset::VBurst, 0x000E_0204));
    program.push((RegisterOffset::XScale, (0x100 * WIDTH) / 160));
    program.push((RegisterOffset::YScale, (0x100 * HEIGHT) / 60));
    assert(program@ =~= init_program());
    program
}

/// A status word switched to the given framebuffer type, and the type it had before (a
/// reserved type counts as off).
pub fn switch_framebuffer_type(status: u32, value: StatusFramebufferType) -> (r: (
    u32,
    StatusFramebufferType,
))
    ensures
        r.0 == (status & !3u32) | value.spec_value(),
        r.1 == match framebuffer_type_of(status) {
            Some(t) => t,
            None => StatusFramebufferType::Off,
        },
{
    let s = Status::new_with_raw_value(status);
    let new_status = s.with_framebuffer_type(value);
    let previous = match s.framebuffer_type() {
        Some(t) => t,
        None => StatusFramebufferType::Off,
    };
    (new_status.raw_value(), previous)
}

/// Physical address of the front buffer's pixels, or 0 without a front buffer.
pub fn frontbuffer_physical_address(pixels: Option<u32>) -> (r: u32)
    ensures
        r == match pixels {
            Some(p) => p & 0x1FFF_FFFF,
            None => 0,
        },
{
    match pixels {
        Some(p) => p & 0x1FFF_FFFF,
        None => 0,
    }
}

/// The uncached address the VI scans the front buffer from.
pub fn frontbuffer_dram_address(pixels: u32) -> (r: u32)
    ensures
        r == (pixels & 0x1FFF_FFFF) | 0xA000_0000,
{
    (pixels & 0x1FFF_FFFF) | 0xA000_0000
}

/// The vertical sync wait ends once the VI's current line is below 10 (lines 520, 522, 524, 0,
/// 2, 4, 6, 8, 10...).
pub fn vsync_reached(current_scanline: u32) -> (r: bool)
    ensures
        r == (current_scanline < 10),
{
    current_scanline < 10
}


/// Switching the framebuffer type and switching back to the type reported as previous
/// restores the status word, provided its type bits held a defined type (not the reserved 1):
/// turning the video off and on again leaves it as it was.
pub proof fn switch_back_restores(status: u32, value: StatusFramebufferType)
    requires
        framebuffer_type_of(status) is Some,
    ensures
        ({
            let switched = (status & !3u32) | value.spec_value();
            let previous = framebuffer_type_of(status).unwrap();
            (switched & !3u32) | previous.spec_value() == status
        }),
{
    let p = framebuffer_type_of(status).unwrap().spec_value();
    assert(p == status & 3);
    lemma_type_bits(status, value.spec_value(), p);
}

/// Setting the framebuffer type leaves every other status bit alone and reads back the type.
pub proof fn framebuffer_type_round_trip(status: u32, value: StatusFramebufferType)
    ensures
        framebuffer_type_of((status & !3u32) | value.spec_value()) == Some(value),
        ((status & !3u32) | value.spec_value()) & !3u32 == status & !3u32,
{
    lemma_type_bits(status, value.spec_value(), 0);
}

/// Disabling the video and restoring it later, as a `VideoDisabler` does: whatever the status
/// word holds by then, restoring puts back the type bits it had when the video was disabled (a
/// reserved type 1 comes back as off) and keeps the later word's other bits.
pub proof fn disable_then_restore(status: u32, later: u32)
    ensures
        ({
            let (off, previous) = (
                (status & !3u32) | StatusFramebufferType::Off.spec_value(),
                match framebuffer_type_of(status) {
                    Some(t) => t,
                    None => StatusFramebufferType::Off,
                },
            );
            let restored = (later & !3u32) | previous.spec_value();
            &&& framebuffer_type_of(off) == Some(StatusFramebufferType::Off)
            &&& off & !3u32 == status & !3u32
            &&& restored & !3u32 == later & !3u32
            &&& restored & 3u32 == if status & 3u32 == 1 {
                0
            } else {
                status & 3u32
            }
        }),
{
    let previous = match framebuffer_type_of(status) {
        Some(t) => t,
        None => StatusFramebufferType::Off,
    };
    lemma_type_bits(status, StatusFramebufferType::Off.spec_value(), 0);
    lemma_type_bits(later, previous.spec_value(), 0);
}

/// Replacing the two type bits of a status word.
proof fn lemma_type_bits(status: u32, v: u32, p: u32)
    by (bit_vector)
    ensures
        v < 4 ==> ((status & !3u32) | v) & 3u32 == v,
        v < 4 ==> ((status & !3u32) | v) & !3u32 == status & !3u32,
        v < 4 && p == status & 3 ==> (((status & !3u32) | v) & !3u32) | p == status,
        status & 3u32 < 4,
{
}

} // verus!
