//! RDP pipeline state. State is kept as the raw command words that set it; accessors decode the
//! individual fields, so the bit layout of each register is visible in one place.
use vstd::prelude::*;

verus! {

/// Cycle type (SetOtherModes bits 53..=52).
#[derive(Copy, Clone, PartialEq, Eq, Debug, Structural)]
pub enum CycleType {
    OneCycle,
    TwoCycle,
    Copy,
    Fill,
}

/// Pipeline state as the raw words of the commands that set it.
pub struct State {
    /// SetOtherModes command word.
    pub other_modes: u64,
    /// SetScissor command word.
    pub scissor: u64,
    /// SetFillColor: 32-bit color, or two packed 16-bit pixels for 16bpp framebuffers.
    pub fill_color: u32,
    /// SetBlendColor: r bits 31..=24, g 23..=16, b 15..=8, a 7..=0.
    pub blend_color: u32,
    /// SetColorImage command word.
    pub color_image: u64,
}

/// Cycle type selected by a SetOtherModes word.
pub open spec fn cycle_type_of(other_modes: u64) -> CycleType {
    let v = (other_modes >> 52u64) & 3u64;
    if v == 0 {
        CycleType::OneCycle
    } else if v == 1 {
        CycleType::TwoCycle
    } else if v == 2 {
        CycleType::Copy
    } else {
        CycleType::Fill
    }
}

/// A 12-bit field of a word at the given shift.
pub open spec fn field12(word: u64, shift: u64) -> u32 {
    ((word >> shift) & 0xFFFu64) as u32
}

/// A 2-bit field of a word at the given shift.
pub open spec fn field2(word: u64, shift: u64) -> u32 {
    ((word >> shift) & 3u64) as u32
}

/// Range facts of the word fields the state accessors and the command decoders read.
pub proof fn lemma_word_fields(w: u64)
    by (bit_vector)
    ensures
        (w >> 44u64) & 0xFFFu64 < 4096,
        (w >> 32u64) & 0xFFFu64 < 4096,
        (w >> 12u64) & 0xFFFu64 < 4096,
        w & 0xFFFu64 < 4096,
        w >> 0u64 == w,
        w & 0x03FF_FFFFu64 < 0x0400_0000,
        (w >> 51u64) & 3u64 < 4,
        (w >> 32u64) & 0x3FFu64 < 1024,
        (w >> 30u64) & 3u64 < 4,
        (w >> 26u64) & 3u64 < 4,
        (w >> 22u64) & 3u64 < 4,
        (w >> 18u64) & 3u64 < 4,
        (w >> 8u64) & 3u64 < 4,
{
}

impl State {
    /// The all-zero state a freshly reset soft RDP starts from.
    pub open spec fn zero() -> State {
        State { other_modes: 0, scissor: 0, fill_color: 0, blend_color: 0, color_image: 0 }
    }

    pub open spec fn spec_cycle_type(&self) -> CycleType {
        cycle_type_of(self.other_modes)
    }

    /// Scissor bounds as raw 10.2 fixed point: (left, top, right, bottom).
    pub open spec fn spec_scissor_bounds(&self) -> (u32, u32, u32, u32) {
        (
            field12(self.scissor, 44),
            field12(self.scissor, 32),
            field12(self.scissor, 12),
            field12(self.scissor, 0),
        )
    }

    pub open spec fn spec_color_image_addr(&self) -> u32 {
        (self.color_image & 0x03FF_FFFFu64) as u32
    }

    pub open spec fn spec_color_image_size(&self) -> u32 {
        field2(self.color_image, 51)
    }

    pub open spec fn spec_color_image_width(&self) -> u32 {
        ((self.color_image >> 32u64) & 0x3FFu64) as u32
    }

    /// Blender cycle 0 selectors (m1a, m1b, m2a, m2b): SetOtherModes bits 31..=30, 27..=26,
    /// 23..=22 and 19..=18.
    pub open spec fn spec_blender_0(&self) -> (u32, u32, u32, u32) {
        (
            field2(self.other_modes, 30),
            field2(self.other_modes, 26),
            field2(self.other_modes, 22),
            field2(self.other_modes, 18),
        )
    }

    /// Coverage destination mode (SetOtherModes bits 9..=8): 0 clamp, 1 wrap, 2 zap, 3 save.
    pub open spec fn spec_coverage_mode(&self) -> u32 {
        field2(self.other_modes, 8)
    }

    pub fn new() -> (s: State)
        ensures
            s == State::zero(),
    {
        State { other_modes: 0, scissor: 0, fill_color: 0, blend_color: 0, color_image: 0 }
    }

    pub fn cycle_type(&self) -> (r: CycleType)
        ensures
            r == self.spec_cycle_type(),
    {
        match (self.other_modes >> 52u64) & 3u64 {
            0 => CycleType::OneCycle,
            1 => CycleType::TwoCycle,
            2 => CycleType::Copy,
            _ => CycleType::Fill,
        }
    }

    /// Scissor bounds as raw 10.2 fixed point: (left, top, right, bottom).
    pub fn scissor_bounds(&self) -> (r: (u32, u32, u32, u32))
        ensures
            r == self.spec_scissor_bounds(),
            r.0 < 4096 && r.1 < 4096 && r.2 < 4096 && r.3 < 4096,
    {
        let s = self.scissor;
        proof {
            lemma_word_fields(s);
        }
        let left = ((s >> 44u64) & 0xFFFu64) as u32;
        let top = ((s >> 32u64) & 0xFFFu64) as u32;
        let right = ((s >> 12u64) & 0xFFFu64) as u32;
        let bottom = (s & 0xFFFu64) as u32;
        (left, top, right, bottom)
    }

    /// Physical RDRAM address of the color image.
    pub fn color_image_addr(&self) -> (r: u32)
        ensures
            r == self.spec_color_image_addr(),
            r < 0x0400_0000,
    {
        let c = self.color_image;
        proof {
            lemma_word_fields(c);
        }
        (c & 0x03FF_FFFFu64) as u32
    }

    /// log2(bits per pixel) - 2: 0 = 4bpp, 1 = 8bpp, 2 = 16bpp, 3 = 32bpp.
    pub fn color_image_size(&self) -> (r: u32)
        ensures
            r == self.spec_color_image_size(),
            r < 4,
    {
        let c = self.color_image;
        proof {
            lemma_word_fields(c);
        }
        ((c >> 51u64) & 3u64) as u32
    }

    /// Width field of SetColorImage (stored width - 1 by convention of the callers).
    pub fn color_image_width(&self) -> (r: u32)
        ensures
            r == self.spec_color_image_width(),
            r < 1024,
    {
        let c = self.color_image;
        proof {
            lemma_word_fields(c);
        }
        ((c >> 32u64) & 0x3FFu64) as u32
    }

    /// Blender cycle 0 selectors (m1a, m1b, m2a, m2b).
    pub fn blender_0(&self) -> (r: (u32, u32, u32, u32))
        ensures
            r == self.spec_blender_0(),
    {
        let m = self.other_modes;
        proof {
            lemma_word_fields(m);
        }
        (
            ((m >> 30u64) & 3u64) as u32,
            ((m >> 26u64) & 3u64) as u32,
            ((m >> 22u64) & 3u64) as u32,
            ((m >> 18u64) & 3u64) as u32,
        )
    }

    /// Coverage destination mode: 0 clamp, 1 wrap, 2 zap, 3 save.
    pub fn coverage_mode(&self) -> (r: u32)
        ensures
            r == self.spec_coverage_mode(),
    {
        let m = self.other_modes;
        proof {
            lemma_word_fields(m);
        }
        ((m >> 8u64) & 3u64) as u32
    }
}

impl Default for State {
    fn default() -> (s: State)
        ensures
            s == State::zero(),
    {
        State::new()
    }
}

} // verus!
