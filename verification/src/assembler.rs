//! Encoders for the VR4300's MIPS III instructions: each `make_*` function returns the 32-bit
//! instruction word (or, for FPU arithmetic, a word awaiting its format field).
//!
//! The layouts are stated by `itype` (opcode, rs, rt, 16-bit immediate), `rtype` (SPECIAL:
//! rs, rt, rd, sa, function), `regimm_word`, `cop_word` and `float_word`.
use vstd::prelude::*;
use crate::uint::{U5, U6, U26};

verus! {

/// General purpose registers.
#[derive(Clone, Copy, Debug, PartialEq, Eq, PartialOrd, Structural)]
pub enum GPR {
    R0,
    AT,
    V0,
    V1,
    A0,
    A1,
    A2,
    A3,
    T0,
    T1,
    T2,
    T3,
    T4,
    T5,
    T6,
    T7,
    S0,
    S1,
    S2,
    S3,
    S4,
    S5,
    S6,
    S7,
    T8,
    T9,
    K0,
    K1,
    GP,
    SP,
    S8,
    RA,
}

impl GPR {
    /// The register number.
    pub open spec fn id(self) -> u8 {
        match self {
            GPR::R0 => 0,
            GPR::AT => 1,
            GPR::V0 => 2,
            GPR::V1 => 3,
            GPR::A0 => 4,
            GPR::A1 => 5,
            GPR::A2 => 6,
            GPR::A3 => 7,
            GPR::T0 => 8,
            GPR::T1 => 9,
            GPR::T2 => 10,
            GPR::T3 => 11,
            GPR::T4 => 12,
            GPR::T5 => 13,
            GPR::T6 => 14,
            GPR::T7 => 15,
            GPR::S0 => 16,
            GPR::S1 => 17,
            GPR::S2 => 18,
            GPR::S3 => 19,
            GPR::S4 => 20,
            GPR::S5 => 21,
            GPR::S6 => 22,
            GPR::S7 => 23,
            GPR::T8 => 24,
            GPR::T9 => 25,
            GPR::K0 => 26,
            GPR::K1 => 27,
            GPR::GP => 28,
            GPR::SP => 29,
            GPR::S8 => 30,
            GPR::RA => 31,
        }
    }

    pub fn raw_value(self) -> (r: U5)
        ensures
            r@ == self.id(),
    {
        U5::new(
            match self {
                GPR::R0 => 0,
                GPR::AT => 1,
                GPR::V0 => 2,
                GPR::V1 => 3,
                GPR::A0 => 4,
                GPR::A1 => 5,
                GPR::A2 => 6,
                GPR::A3 => 7,
                GPR::T0 => 8,
                GPR::T1 => 9,
                GPR::T2 => 10,
                GPR::T3 => 11,
                GPR::T4 => 12,
                GPR::T5 => 13,
                GPR::T6 => 14,
                GPR::T7 => 15,
                GPR::S0 => 16,
                GPR::S1 => 17,
                GPR::S2 => 18,
                GPR::S3 => 19,
                GPR::S4 => 20,
                GPR::S5 => 21,
                GPR::S6 => 22,
                GPR::S7 => 23,
                GPR::T8 => 24,
                GPR::T9 => 25,
                GPR::K0 => 26,
                GPR::K1 => 27,
                GPR::GP => 28,
                GPR::SP => 29,
                GPR::S8 => 30,
                GPR::RA => 31,
            },
        )
    }

    /// The register with the given number (numbers outside 0..32 give the last one).
    pub open spec fn from_number(k: int) -> GPR {
        if k == 0 {
            GPR::R0
        } else if k == 1 {
            GPR::AT
        } else if k == 2 {
            GPR::V0
        } else if k == 3 {
            GPR::V1
        } else if k == 4 {
            GPR::A0
        } else if k == 5 {
            GPR::A1
        } else if k == 6 {
            GPR::A2
        } else if k == 7 {
            GPR::A3
        } else if k == 8 {
            GPR::T0
        } else if k == 9 {
            GPR::T1
        } else if k == 10 {
            GPR::T2
        } else if k == 11 {
            GPR::T3
        } else if k == 12 {
            GPR::T4
        } else if k == 13 {
            GPR::T5
        } else if k == 14 {
            GPR::T6
        } else if k == 15 {
            GPR::T7
        } else if k == 16 {
            GPR::S0
        } else if k == 17 {
            GPR::S1
        } else if k == 18 {
            GPR::S2
        } else if k == 19 {
            GPR::S3
        } else if k == 20 {
            GPR::S4
        } else if k == 21 {
            GPR::S5
        } else if k == 22 {
            GPR::S6
        } else if k == 23 {
            GPR::S7
        } else if k == 24 {
            GPR::T8
        } else if k == 25 {
            GPR::T9
        } else if k == 26 {
            GPR::K0
        } else if k == 27 {
            GPR::K1
        } else if k == 28 {
            GPR::GP
        } else if k == 29 {
            GPR::SP
        } else if k == 30 {
            GPR::S8
        } else {
            GPR::RA
        }
    }

    /// What `steps_between` returns.
    pub open spec fn spec_steps_between(start: GPR, end: GPR) -> Option<usize> {
        if start.id() <= end.id() {
            Some((end.id() - start.id()) as usize)
        } else {
            None
        }
    }

    /// What `forward_checked` returns.
    pub open spec fn spec_forward_checked(start: GPR, count: int) -> Option<GPR> {
        if start.id() + count < 32 {
            Some(GPR::from_number(start.id() + count))
        } else {
            None
        }
    }

    /// What `backward_checked` returns.
    pub open spec fn spec_backward_checked(start: GPR, count: int) -> Option<GPR> {
        if start.id() - count >= 0 {
            Some(GPR::from_number(start.id() - count))
        } else {
            None
        }
    }

    pub fn new_with_raw_value(raw: U5) -> (r: GPR)
        ensures
            r.id() == raw@,
    {
        match raw.value() {
            0 => GPR::R0,
            1 => GPR::AT,
            2 => GPR::V0,
            3 => GPR::V1,
            4 => GPR::A0,
            5 => GPR::A1,
            6 => GPR::A2,
            7 => GPR::A3,
            8 => GPR::T0,
            9 => GPR::T1,
            10 => GPR::T2,
            11 => GPR::T3,
            12 => GPR::T4,
            13 => GPR::T5,
            14 => GPR::T6,
            15 => GPR::T7,
            16 => GPR::S0,
            17 => GPR::S1,
            18 => GPR::S2,
            19 => GPR::S3,
            20 => GPR::S4,
            21 => GPR::S5,
            22 => GPR::S6,
            23 => GPR::S7,
            24 => GPR::T8,
            25 => GPR::T9,
            26 => GPR::K0,
            27 => GPR::K1,
            28 => GPR::GP,
            29 => GPR::SP,
            30 => GPR::S8,
            _ => GPR::RA,
        }
    }

    /// Number of steps from `start` to `end`, if `start` does not come after `end`.
    pub fn steps_between(start: &GPR, end: &GPR) -> (r: Option<usize>)
        ensures
            r == GPR::spec_steps_between(*start, *end),
            r == if start.id() <= end.id() {
                Some((end.id() - start.id()) as usize)
            } else {
                None
            },
    {
        let s = start.raw_value().value() as usize;
        let e = end.raw_value().value() as usize;
        if s <= e {
            Some(e - s)
        } else {
            None
        }
    }

    /// The register `count` steps after `start`, if there is one.
    pub fn forward_checked(start: GPR, count: usize) -> (r: Option<GPR>)
        ensures
            r == GPR::spec_forward_checked(start, count as int),
            match r {
                Some(n) => start.id() + count < 32 && n.id() == start.id() + count,
                None => start.id() + count >= 32,
            },
    {
        let s = start.raw_value().value() as usize;
        if count >= 32 - s {
            None
        } else {
            Some(GPR::new_with_raw_value(U5::new((s + count) as u8)))
        }
    }

    /// The register `count` steps before `start`, if there is one.
    pub fn backward_checked(start: GPR, count: usize) -> (r: Option<GPR>)
        ensures
            r == GPR::spec_backward_checked(start, count as int),
            match r {
                Some(n) => count <= start.id() && n.id() == start.id() - count,
                None => count > start.id(),
            },
    {
        let s = start.raw_value().value() as usize;
        if count > s {
            None
        } else {
            Some(GPR::new_with_raw_value(U5::new((s - count) as u8)))
        }
    }
}

/// Floating point registers.
#[derive(Clone, Copy, Debug, PartialEq, Eq, PartialOrd, Structural)]
pub enum FR {
    F0,
    F1,
    F2,
    F3,
    F4,
    F5,
    F6,
    F7,
    F8,
    F9,
    F10,
    F11,
    F12,
    F13,
    F14,
    F15,
    F16,
    F17,
    F18,
    F19,
    F20,
    F21,
    F22,
    F23,
    F24,
    F25,
    F26,
    F27,
    F28,
    F29,
    F30,
    F31,
}

impl FR {
    /// The register number.
    pub open spec fn id(self) -> u8 {
        match self {
            FR::F0 => 0,
            FR::F1 => 1,
            FR::F2 => 2,
            FR::F3 => 3,
            FR::F4 => 4,
            FR::F5 => 5,
            FR::F6 => 6,
            FR::F7 => 7,
            FR::F8 => 8,
            FR::F9 => 9,
            FR::F10 => 10,
            FR::F11 => 11,
            FR::F12 => 12,
            FR::F13 => 13,
            FR::F14 => 14,
            FR::F15 => 15,
            FR::F16 => 16,
            FR::F17 => 17,
            FR::F18 => 18,
            FR::F19 => 19,
            FR::F20 => 20,
            FR::F21 => 21,
            FR::F22 => 22,
            FR::F23 => 23,
            FR::F24 => 24,
            FR::F25 => 25,
            FR::F26 => 26,
            FR::F27 => 27,
            FR::F28 => 28,
            FR::F29 => 29,
            FR::F30 => 30,
            FR::F31 => 31,
        }
    }

    pub fn raw_value(self) -> (r: U5)
        ensures
            r@ == self.id(),
    {
        U5::new(
            match self {
                FR::F0 => 0,
                FR::F1 => 1,
                FR::F2 => 2,
                FR::F3 => 3,
                FR::F4 => 4,
                FR::F5 => 5,
                FR::F6 => 6,
                FR::F7 => 7,
                FR::F8 => 8,
                FR::F9 => 9,
                FR::F10 => 10,
                FR::F11 => 11,
                FR::F12 => 12,
                FR::F13 => 13,
                FR::F14 => 14,
                FR::F15 => 15,
                FR::F16 => 16,
                FR::F17 => 17,
                FR::F18 => 18,
                FR::F19 => 19,
                FR::F20 => 20,
                FR::F21 => 21,
                FR::F22 => 22,
                FR::F23 => 23,
                FR::F24 => 24,
                FR::F25 => 25,
                FR::F26 => 26,
                FR::F27 => 27,
                FR::F28 => 28,
                FR::F29 => 29,
                FR::F30 => 30,
                FR::F31 => 31,
            },
        )
    }

    /// The register with the given number (numbers outside 0..32 give the last one).
    pub open spec fn from_number(k: int) -> FR {
        if k == 0 {
            FR::F0
        } else if k == 1 {
            FR::F1
        } else if k == 2 {
            FR::F2
        } else if k == 3 {
            FR::F3
        } else if k == 4 {
            FR::F4
        } else if k == 5 {
            FR::F5
        } else if k == 6 {
            FR::F6
        } else if k == 7 {
            FR::F7
        } else if k == 8 {
            FR::F8
        } else if k == 9 {
            FR::F9
        } else if k == 10 {
            FR::F10
        } else if k == 11 {
            FR::F11
        } else if k == 12 {
            FR::F12
        } else if k == 13 {
            FR::F13
        } else if k == 14 {
            FR::F14
        } else if k == 15 {
            FR::F15
        } else if k == 16 {
            FR::F16
        } else if k == 17 {
            FR::F17
        } else if k == 18 {
            FR::F18
        } else if k == 19 {
            FR::F19
        } else if k == 20 {
            FR::F20
        } else if k == 21 {
            FR::F21
        } else if k == 22 {
            FR::F22
        } else if k == 23 {
            FR::F23
        } else if k == 24 {
            FR::F24
        } else if k == 25 {
            FR::F25
        } else if k == 26 {
            FR::F26
        } else if k == 27 {
            FR::F27
        } else if k == 28 {
            FR::F28
        } else if k == 29 {
            FR::F29
        } else if k == 30 {
            FR::F30
        } else {
            FR::F31
        }
    }

    /// What `steps_between` returns.
    pub open spec fn spec_steps_between(start: FR, end: FR) -> Option<usize> {
        if start.id() <= end.id() {
            Some((end.id() - start.id()) as usize)
        } else {
            None
        }
    }

    /// What `forward_checked` returns.
    pub open spec fn spec_forward_checked(start: FR, count: int) -> Option<FR> {
        if start.id() + count < 32 {
            Some(FR::from_number(start.id() + count))
        } else {
            None
        }
    }

    /// What `backward_checked` returns.
    pub open spec fn spec_backward_checked(start: FR, count: int) -> Option<FR> {
        if start.id() - count >= 0 {
            Some(FR::from_number(start.id() - count))
        } else {
            None
        }
    }

    pub fn new_with_raw_value(raw: U5) -> (r: FR)
        ensures
            r.id() == raw@,
    {
        match raw.value() {
            0 => FR::F0,
            1 => FR::F1,
            2 => FR::F2,
            3 => FR::F3,
            4 => FR::F4,
            5 => FR::F5,
            6 => FR::F6,
            7 => FR::F7,
            8 => FR::F8,
            9 => FR::F9,
            10 => FR::F10,
            11 => FR::F11,
            12 => FR::F12,
            13 => FR::F13,
            14 => FR::F14,
            15 => FR::F15,
            16 => FR::F16,
            17 => FR::F17,
            18 => FR::F18,
            19 => FR::F19,
            20 => FR::F20,
            21 => FR::F21,
            22 => FR::F22,
            23 => FR::F23,
            24 => FR::F24,
            25 => FR::F25,
            26 => FR::F26,
            27 => FR::F27,
            28 => FR::F28,
            29 => FR::F29,
            30 => FR::F30,
            _ => FR::F31,
        }
    }

    /// Number of steps from `start` to `end`, if `start` does not come after `end`.
    pub fn steps_between(start: &FR, end: &FR) -> (r: Option<usize>)
        ensures
            r == FR::spec_steps_between(*start, *end),
            r == if start.id() <= end.id() {
                Some((end.id() - start.id()) as usize)
            } else {
                None
            },
    {
        let s = start.raw_value().value() as usize;
        let e = end.raw_value().value() as usize;
        if s <= e {
            Some(e - s)
        } else {
            None
        }
    }

    /// The register `count` steps after `start`, if there is one.
    pub fn forward_checked(start: FR, count: usize) -> (r: Option<FR>)
        ensures
            r == FR::spec_forward_checked(start, count as int),
            match r {
                Some(n) => start.id() + count < 32 && n.id() == start.id() + count,
                None => start.id() + count >= 32,
            },
    {
        let s = start.raw_value().value() as usize;
        if count >= 32 - s {
            None
        } else {
            Some(FR::new_with_raw_value(U5::new((s + count) as u8)))
        }
    }

    /// The register `count` steps before `start`, if there is one.
    pub fn backward_checked(start: FR, count: usize) -> (r: Option<FR>)
        ensures
            r == FR::spec_backward_checked(start, count as int),
            match r {
                Some(n) => count <= start.id() && n.id() == start.id() - count,
                None => count > start.id(),
            },
    {
        let s = start.raw_value().value() as usize;
        if count > s {
            None
        } else {
            Some(FR::new_with_raw_value(U5::new((s - count) as u8)))
        }
    }
}

/// Main opcodes (bits 31..=26).
#[allow(non_camel_case_types)]
#[derive(Clone, Copy, Debug, PartialEq, Eq, Structural)]
pub enum Opcode {
    SPECIAL,
    REGIMM,
    J,
    JAL,
    BEQ,
    BNE,
    BLEZ,
    BGTZ,
    ADDI,
    ADDIU,
    SLTI,
    SLTIU,
    ANDI,
    ORI,
    XORI,
    LUI,
    COP0,
    COP1,
    COP2,
    COP3,
    BEQL,
    BNEL,
    BLEZL,
    BGTZL,
    DADDI,
    DADDIU,
    LDL,
    LDR,
    _I28,
    LB,
    LH,
    LWL,
    LW,
    LBU,
    LHU,
    LWR,
    LWU,
    SB,
    SH,
    SWL,
    SW,
    SDL,
    SDR,
    SWR,
    CACHE,
    LL,
    LWC1,
    LLD,
    LDC1,
    LD,
    SC,
    SWC1,
    SCD,
    SDC1,
    SD,
}

impl Opcode {
    /// The number the hardware decodes for this value.
    pub open spec fn spec_value(self) -> u32 {
        match self {
            Opcode::SPECIAL => 0,
            Opcode::REGIMM => 1,
            Opcode::J => 2,
            Opcode::JAL => 3,
            Opcode::BEQ => 4,
            Opcode::BNE => 5,
            Opcode::BLEZ => 6,
            Opcode::BGTZ => 7,
            Opcode::ADDI => 8,
            Opcode::ADDIU => 9,
            Opcode::SLTI => 10,
            Opcode::SLTIU => 11,
            Opcode::ANDI => 12,
            Opcode::ORI => 13,
            Opcode::XORI => 14,
            Opcode::LUI => 15,
            Opcode::COP0 => 16,
            Opcode::COP1 => 17,
            Opcode::COP2 => 18,
            Opcode::COP3 => 19,
            Opcode::BEQL => 20,
            Opcode::BNEL => 21,
            Opcode::BLEZL => 22,
            Opcode::BGTZL => 23,
            Opcode::DADDI => 24,
            Opcode::DADDIU => 25,
            Opcode::LDL => 26,
            Opcode::LDR => 27,
            Opcode::_I28 => 28,
            Opcode::LB => 32,
            Opcode::LH => 33,
            Opcode::LWL => 34,
            Opcode::LW => 35,
            Opcode::LBU => 36,
            Opcode::LHU => 37,
            Opcode::LWR => 38,
            Opcode::LWU => 39,
            Opcode::SB => 40,
            Opcode::SH => 41,
            Opcode::SWL => 42,
            Opcode::SW => 43,
            Opcode::SDL => 44,
            Opcode::SDR => 45,
            Opcode::SWR => 46,
            Opcode::CACHE => 47,
            Opcode::LL => 48,
            Opcode::LWC1 => 49,
            Opcode::LLD => 52,
            Opcode::LDC1 => 53,
            Opcode::LD => 55,
            Opcode::SC => 56,
            Opcode::SWC1 => 57,
            Opcode::SCD => 60,
            Opcode::SDC1 => 61,
            Opcode::SD => 63,
        }
    }

    pub fn value(self) -> (r: u32)
        ensures
            r == self.spec_value(),
            r < 64,
    {
        match self {
            Opcode::SPECIAL => 0,
            Opcode::REGIMM => 1,
            Opcode::J => 2,
            Opcode::JAL => 3,
            Opcode::BEQ => 4,
            Opcode::BNE => 5,
            Opcode::BLEZ => 6,
            Opcode::BGTZ => 7,
            Opcode::ADDI => 8,
            Opcode::ADDIU => 9,
            Opcode::SLTI => 10,
            Opcode::SLTIU => 11,
            Opcode::ANDI => 12,
            Opcode::ORI => 13,
            Opcode::XORI => 14,
            Opcode::LUI => 15,
            Opcode::COP0 => 16,
            Opcode::COP1 => 17,
            Opcode::COP2 => 18,
            Opcode::COP3 => 19,
            Opcode::BEQL => 20,
            Opcode::BNEL => 21,
            Opcode::BLEZL => 22,
            Opcode::BGTZL => 23,
            Opcode::DADDI => 24,
            Opcode::DADDIU => 25,
            Opcode::LDL => 26,
            Opcode::LDR => 27,
            Opcode::_I28 => 28,
            Opcode::LB => 32,
            Opcode::LH => 33,
            Opcode::LWL => 34,
            Opcode::LW => 35,
            Opcode::LBU => 36,
            Opcode::LHU => 37,
            Opcode::LWR => 38,
            Opcode::LWU => 39,
            Opcode::SB => 40,
            Opcode::SH => 41,
            Opcode::SWL => 42,
            Opcode::SW => 43,
            Opcode::SDL => 44,
            Opcode::SDR => 45,
            Opcode::SWR => 46,
            Opcode::CACHE => 47,
            Opcode::LL => 48,
            Opcode::LWC1 => 49,
            Opcode::LLD => 52,
            Opcode::LDC1 => 53,
            Opcode::LD => 55,
            Opcode::SC => 56,
            Opcode::SWC1 => 57,
            Opcode::SCD => 60,
            Opcode::SDC1 => 61,
            Opcode::SD => 63,
        }
    }
}

/// SPECIAL function codes (bits 5..=0).
#[allow(non_camel_case_types)]
#[derive(Clone, Copy, Debug, PartialEq, Eq, Structural)]
pub enum SpecialOpcode {
    SLL,
    SRL,
    SRA,
    SLLV,
    SRLV,
    SRAV,
    JR,
    JALR,
    SYSCALL,
    BREAK,
    SYNC,
    MFHI,
    MTHI,
    MFLO,
    MTLO,
    DSLLV,
    DSRLV,
    DSRAV,
    MULT,
    MULTU,
    DIV,
    DIVU,
    DMULT,
    DMULTU,
    DDIV,
    DDIVU,
    ADD,
    ADDU,
    SUB,
    SUBU,
    AND,
    OR,
    XOR,
    NOR,
    SLT,
    SLTU,
    DADD,
    DADDU,
    DSUB,
    DSUBU,
    TGE,
    TGEU,
    TLT,
    TLTU,
    TEQ,
    TNE,
    DSLL,
    DSRL,
    DSRA,
    DSLL32,
    DSRL32,
    DSRA32,
}

impl SpecialOpcode {
    /// The number the hardware decodes for this value.
    pub open spec fn spec_value(self) -> u32 {
        match self {
            SpecialOpcode::SLL => 0,
            SpecialOpcode::SRL => 2,
            SpecialOpcode::SRA => 3,
            SpecialOpcode::SLLV => 4,
            SpecialOpcode::SRLV => 6,
            SpecialOpcode::SRAV => 7,
            SpecialOpcode::JR => 8,
            SpecialOpcode::JALR => 9,
            SpecialOpcode::SYSCALL => 12,
            SpecialOpcode::BREAK => 13,
            SpecialOpcode::SYNC => 15,
            SpecialOpcode::MFHI => 16,
            SpecialOpcode::MTHI => 17,
            SpecialOpcode::MFLO => 18,
            SpecialOpcode::MTLO => 19,
            SpecialOpcode::DSLLV => 20,
            SpecialOpcode::DSRLV => 22,
            SpecialOpcode::DSRAV => 23,
            SpecialOpcode::MULT => 24,
            SpecialOpcode::MULTU => 25,
            SpecialOpcode::DIV => 26,
            SpecialOpcode::DIVU => 27,
            SpecialOpcode::DMULT => 28,
            SpecialOpcode::DMULTU => 29,
            SpecialOpcode::DDIV => 30,
            SpecialOpcode::DDIVU => 31,
            SpecialOpcode::ADD => 32,
            SpecialOpcode::ADDU => 33,
            SpecialOpcode::SUB => 34,
            SpecialOpcode::SUBU => 35,
            SpecialOpcode::AND => 36,
            SpecialOpcode::OR => 37,
            SpecialOpcode::XOR => 38,
            SpecialOpcode::NOR => 39,
            SpecialOpcode::SLT => 42,
            SpecialOpcode::SLTU => 43,
            SpecialOpcode::DADD => 44,
            SpecialOpcode::DADDU => 45,
            SpecialOpcode::DSUB => 46,
            SpecialOpcode::DSUBU => 47,
            SpecialOpcode::TGE => 48,
            SpecialOpcode::TGEU => 49,
            SpecialOpcode::TLT => 50,
            SpecialOpcode::TLTU => 51,
            SpecialOpcode::TEQ => 52,
            SpecialOpcode::TNE => 54,
            SpecialOpcode::DSLL => 56,
            SpecialOpcode::DSRL => 58,
            SpecialOpcode::DSRA => 59,
            SpecialOpcode::DSLL32 => 60,
            SpecialOpcode::DSRL32 => 62,
            SpecialOpcode::DSRA32 => 63,
        }
    }

    pub fn value(self) -> (r: u32)
        ensures
            r == self.spec_value(),
            r < 64,
    {
        match self {
            SpecialOpcode::SLL => 0,
            SpecialOpcode::SRL => 2,
            SpecialOpcode::SRA => 3,
            SpecialOpcode::SLLV => 4,
            SpecialOpcode::SRLV => 6,
            SpecialOpcode::SRAV => 7,
            SpecialOpcode::JR => 8,
            SpecialOpcode::JALR => 9,
            SpecialOpcode::SYSCALL => 12,
            SpecialOpcode::BREAK => 13,
            SpecialOpcode::SYNC => 15,
            SpecialOpcode::MFHI => 16,
            SpecialOpcode::MTHI => 17,
            SpecialOpcode::MFLO => 18,
            SpecialOpcode::MTLO => 19,
            SpecialOpcode::DSLLV => 20,
            SpecialOpcode::DSRLV => 22,
            SpecialOpcode::DSRAV => 23,
            SpecialOpcode::MULT => 24,
            SpecialOpcode::MULTU => 25,
            SpecialOpcode::DIV => 26,
            SpecialOpcode::DIVU => 27,
            SpecialOpcode::DMULT => 28,
            SpecialOpcode::DMULTU => 29,
            SpecialOpcode::DDIV => 30,
            SpecialOpcode::DDIVU => 31,
            SpecialOpcode::ADD => 32,
            SpecialOpcode::ADDU => 33,
            SpecialOpcode::SUB => 34,
            SpecialOpcode::SUBU => 35,
            SpecialOpcode::AND => 36,
            SpecialOpcode::OR => 37,
            SpecialOpcode::XOR => 38,
            SpecialOpcode::NOR => 39,
            SpecialOpcode::SLT => 42,
            SpecialOpcode::SLTU => 43,
            SpecialOpcode::DADD => 44,
            SpecialOpcode::DADDU => 45,
            SpecialOpcode::DSUB => 46,
            SpecialOpcode::DSUBU => 47,
            SpecialOpcode::TGE => 48,
            SpecialOpcode::TGEU => 49,
            SpecialOpcode::TLT => 50,
            SpecialOpcode::TLTU => 51,
            SpecialOpcode::TEQ => 52,
            SpecialOpcode::TNE => 54,
            SpecialOpcode::DSLL => 56,
            SpecialOpcode::DSRL => 58,
            SpecialOpcode::DSRA => 59,
            SpecialOpcode::DSLL32 => 60,
            SpecialOpcode::DSRL32 => 62,
            SpecialOpcode::DSRA32 => 63,
        }
    }
}

/// REGIMM codes (bits 20..=16).
#[allow(non_camel_case_types)]
#[derive(Clone, Copy, Debug, PartialEq, Eq, Structural)]
pub enum RegimmOpcode {
    BLTZ,
    BGEZ,
    BLTZL,
    BGEZL,
    TGEI,
    TGEIU,
    TLTI,
    TLTIU,
    TEQI,
    TNEI,
    BLTZAL,
    BGEZAL,
    BLTZALL,
    BGEZALL,
}

impl RegimmOpcode {
    /// The number the hardware decodes for this value.
    pub open spec fn spec_value(self) -> u32 {
        match self {
            RegimmOpcode::BLTZ => 0,
            RegimmOpcode::BGEZ => 1,
            RegimmOpcode::BLTZL => 2,
            RegimmOpcode::BGEZL => 3,
            RegimmOpcode::TGEI => 8,
            RegimmOpcode::TGEIU => 9,
            RegimmOpcode::TLTI => 10,
            RegimmOpcode::TLTIU => 11,
            RegimmOpcode::TEQI => 12,
            RegimmOpcode::TNEI => 14,
            RegimmOpcode::BLTZAL => 16,
            RegimmOpcode::BGEZAL => 17,
            RegimmOpcode::BLTZALL => 18,
            RegimmOpcode::BGEZALL => 19,
        }
    }

    pub fn value(self) -> (r: u32)
        ensures
            r == self.spec_value(),
            r < 32,
    {
        match self {
            RegimmOpcode::BLTZ => 0,
            RegimmOpcode::BGEZ => 1,
            RegimmOpcode::BLTZL => 2,
            RegimmOpcode::BGEZL => 3,
            RegimmOpcode::TGEI => 8,
            RegimmOpcode::TGEIU => 9,
            RegimmOpcode::TLTI => 10,
            RegimmOpcode::TLTIU => 11,
            RegimmOpcode::TEQI => 12,
            RegimmOpcode::TNEI => 14,
            RegimmOpcode::BLTZAL => 16,
            RegimmOpcode::BGEZAL => 17,
            RegimmOpcode::BLTZALL => 18,
            RegimmOpcode::BGEZALL => 19,
        }
    }
}

/// COP0 sub-opcodes (bits 25..=21).
#[allow(non_camel_case_types)]
#[derive(Clone, Copy, Debug, PartialEq, Eq, Structural)]
pub enum Cop0Opcode {
    MFC0,
    DMFC0,
    MTC0,
    DMTC0,
    TLB,
}

impl Cop0Opcode {
    /// The number the hardware decodes for this value.
    pub open spec fn spec_value(self) -> u32 {
        match self {
            Cop0Opcode::MFC0 => 0,
            Cop0Opcode::DMFC0 => 1,
            Cop0Opcode::MTC0 => 4,
            Cop0Opcode::DMTC0 => 5,
            Cop0Opcode::TLB => 16,
        }
    }

    pub fn value(self) -> (r: u32)
        ensures
            r == self.spec_value(),
            r < 32,
    {
        match self {
            Cop0Opcode::MFC0 => 0,
            Cop0Opcode::DMFC0 => 1,
            Cop0Opcode::MTC0 => 4,
            Cop0Opcode::DMTC0 => 5,
            Cop0Opcode::TLB => 16,
        }
    }
}

/// COP0 TLB function codes.
#[allow(non_camel_case_types)]
#[derive(Clone, Copy, Debug, PartialEq, Eq, Structural)]
pub enum Cop0TLBInstruction {
    TLBR,
    TLBWI,
    TLBWR,
    TLBP,
    ERET,
}

impl Cop0TLBInstruction {
    /// The number the hardware decodes for this value.
    pub open spec fn spec_value(self) -> u32 {
        match self {
            Cop0TLBInstruction::TLBR => 1,
            Cop0TLBInstruction::TLBWI => 2,
            Cop0TLBInstruction::TLBWR => 6,
            Cop0TLBInstruction::TLBP => 8,
            Cop0TLBInstruction::ERET => 24,
        }
    }

    pub fn value(self) -> (r: u32)
        ensures
            r == self.spec_value(),
            r < 64,
    {
        match self {
            Cop0TLBInstruction::TLBR => 1,
            Cop0TLBInstruction::TLBWI => 2,
            Cop0TLBInstruction::TLBWR => 6,
            Cop0TLBInstruction::TLBP => 8,
            Cop0TLBInstruction::ERET => 24,
        }
    }
}

/// COP1 sub-opcodes and formats (bits 25..=21).
#[allow(non_camel_case_types)]
#[derive(Clone, Copy, Debug, PartialEq, Eq, Structural)]
pub enum Cop1Opcode {
    MFC1,
    DMFC1,
    CFC1,
    _DCFC1,
    MTC1,
    DMTC1,
    CTC1,
    _DCTC1,
    BC1,
    S,
    D,
    W,
    L,
}

impl Cop1Opcode {
    /// The number the hardware decodes for this value.
    pub open spec fn spec_value(self) -> u32 {
        match self {
            Cop1Opcode::MFC1 => 0,
            Cop1Opcode::DMFC1 => 1,
            Cop1Opcode::CFC1 => 2,
            Cop1Opcode::_DCFC1 => 3,
            Cop1Opcode::MTC1 => 4,
            Cop1Opcode::DMTC1 => 5,
            Cop1Opcode::CTC1 => 6,
            Cop1Opcode::_DCTC1 => 7,
            Cop1Opcode::BC1 => 8,
            Cop1Opcode::S => 16,
            Cop1Opcode::D => 17,
            Cop1Opcode::W => 20,
            Cop1Opcode::L => 21,
        }
    }

    pub fn value(self) -> (r: u32)
        ensures
            r == self.spec_value(),
            r < 32,
    {
        match self {
            Cop1Opcode::MFC1 => 0,
            Cop1Opcode::DMFC1 => 1,
            Cop1Opcode::CFC1 => 2,
            Cop1Opcode::_DCFC1 => 3,
            Cop1Opcode::MTC1 => 4,
            Cop1Opcode::DMTC1 => 5,
            Cop1Opcode::CTC1 => 6,
            Cop1Opcode::_DCTC1 => 7,
            Cop1Opcode::BC1 => 8,
            Cop1Opcode::S => 16,
            Cop1Opcode::D => 17,
            Cop1Opcode::W => 20,
            Cop1Opcode::L => 21,
        }
    }
}

/// COP2 sub-opcodes (bits 25..=21).
#[allow(non_camel_case_types)]
#[derive(Clone, Copy, Debug, PartialEq, Eq, Structural)]
pub enum Cop2Opcode {
    MFC2,
    DMFC2,
    CFC2,
    _DCFC2,
    MTC2,
    DMTC2,
    CTC2,
    _DCTC2,
}

impl Cop2Opcode {
    /// The number the hardware decodes for this value.
    pub open spec fn spec_value(self) -> u32 {
        match self {
            Cop2Opcode::MFC2 => 0,
            Cop2Opcode::DMFC2 => 1,
            Cop2Opcode::CFC2 => 2,
            Cop2Opcode::_DCFC2 => 3,
            Cop2Opcode::MTC2 => 4,
            Cop2Opcode::DMTC2 => 5,
            Cop2Opcode::CTC2 => 6,
            Cop2Opcode::_DCTC2 => 7,
        }
    }

    pub fn value(self) -> (r: u32)
        ensures
            r == self.spec_value(),
            r < 32,
    {
        match self {
            Cop2Opcode::MFC2 => 0,
            Cop2Opcode::DMFC2 => 1,
            Cop2Opcode::CFC2 => 2,
            Cop2Opcode::_DCFC2 => 3,
            Cop2Opcode::MTC2 => 4,
            Cop2Opcode::DMTC2 => 5,
            Cop2Opcode::CTC2 => 6,
            Cop2Opcode::_DCTC2 => 7,
        }
    }
}

/// COP3 sub-opcodes (bits 25..=21).
#[allow(non_camel_case_types)]
#[derive(Clone, Copy, Debug, PartialEq, Eq, Structural)]
pub enum Cop3Opcode {
    MFC3,
    DMFC3,
    MTC3,
    DMTC3,
}

impl Cop3Opcode {
    /// The number the hardware decodes for this value.
    pub open spec fn spec_value(self) -> u32 {
        match self {
            Cop3Opcode::MFC3 => 0,
            Cop3Opcode::DMFC3 => 1,
            Cop3Opcode::MTC3 => 4,
            Cop3Opcode::DMTC3 => 5,
        }
    }

    pub fn value(self) -> (r: u32)
        ensures
            r == self.spec_value(),
            r < 32,
    {
        match self {
            Cop3Opcode::MFC3 => 0,
            Cop3Opcode::DMFC3 => 1,
            Cop3Opcode::MTC3 => 4,
            Cop3Opcode::DMTC3 => 5,
        }
    }
}

/// FPU function codes (bits 5..=0); every 6-bit value has a variant.
#[allow(non_camel_case_types)]
#[derive(Clone, Copy, Debug, PartialEq, Eq, Structural)]
pub enum Cop1FloatInstruction {
    ADD,
    SUB,
    MUL,
    DIV,
    SQRT,
    ABS,
    MOV,
    NEG,
    ROUND_L,
    TRUNC_L,
    CEIL_L,
    FLOOR_L,
    ROUND_W,
    TRUNC_W,
    CEIL_W,
    FLOOR_W,
    _F16,
    _Invalid_17,
    _Invalid_18,
    _Invalid_19,
    _Invalid_20,
    _Invalid_21,
    _Invalid_22,
    _Invalid_23,
    _Invalid_24,
    _Invalid_25,
    _Invalid_26,
    _Invalid_27,
    _Invalid_28,
    _Invalid_29,
    _Invalid_30,
    _F31,
    CVT_S,
    CVT_D,
    _F34,
    _F35,
    CVT_W,
    CVT_L,
    _F38,
    _Invalid_39,
    _Invalid_40,
    _Invalid_41,
    _Invalid_42,
    _Invalid_43,
    _Invalid_44,
    _Invalid_45,
    _Invalid_46,
    _F47,
    C_F,
    C_UN,
    C_EQ,
    C_UEQ,
    C_OLT,
    C_ULT,
    C_OLE,
    C_ULE,
    C_SF,
    C_NGLE,
    C_SEQ,
    C_NGL,
    C_LT,
    C_NGE,
    C_LE,
    C_NGT,
}

impl Cop1FloatInstruction {
    /// The number the hardware decodes for this value.
    pub open spec fn spec_value(self) -> u32 {
        match self {
            Cop1FloatInstruction::ADD => 0,
            Cop1FloatInstruction::SUB => 1,
            Cop1FloatInstruction::MUL => 2,
            Cop1FloatInstruction::DIV => 3,
            Cop1FloatInstruction::SQRT => 4,
            Cop1FloatInstruction::ABS => 5,
            Cop1FloatInstruction::MOV => 6,
            Cop1FloatInstruction::NEG => 7,
            Cop1FloatInstruction::ROUND_L => 8,
            Cop1FloatInstruction::TRUNC_L => 9,
            Cop1FloatInstruction::CEIL_L => 10,
            Cop1FloatInstruction::FLOOR_L => 11,
            Cop1FloatInstruction::ROUND_W => 12,
            Cop1FloatInstruction::TRUNC_W => 13,
            Cop1FloatInstruction::CEIL_W => 14,
            Cop1FloatInstruction::FLOOR_W => 15,
            Cop1FloatInstruction::_F16 => 16,
            Cop1FloatInstruction::_Invalid_17 => 17,
            Cop1FloatInstruction::_Invalid_18 => 18,
            Cop1FloatInstruction::_Invalid_19 => 19,
            Cop1FloatInstruction::_Invalid_20 => 20,
            Cop1FloatInstruction::_Invalid_21 => 21,
            Cop1FloatInstruction::_Invalid_22 => 22,
            Cop1FloatInstruction::_Invalid_23 => 23,
            Cop1FloatInstruction::_Invalid_24 => 24,
            Cop1FloatInstruction::_Invalid_25 => 25,
            Cop1FloatInstruction::_Invalid_26 => 26,
            Cop1FloatInstruction::_Invalid_27 => 27,
            Cop1FloatInstruction::_Invalid_28 => 28,
            Cop1FloatInstruction::_Invalid_29 => 29,
            Cop1FloatInstruction::_Invalid_30 => 30,
            Cop1FloatInstruction::_F31 => 31,
            Cop1FloatInstruction::CVT_S => 32,
            Cop1FloatInstruction::CVT_D => 33,
            Cop1FloatInstruction::_F34 => 34,
            Cop1FloatInstruction::_F35 => 35,
            Cop1FloatInstruction::CVT_W => 36,
            Cop1FloatInstruction::CVT_L => 37,
            Cop1FloatInstruction::_F38 => 38,
            Cop1FloatInstruction::_Invalid_39 => 39,
            Cop1FloatInstruction::_Invalid_40 => 40,
            Cop1FloatInstruction::_Invalid_41 => 41,
            Cop1FloatInstruction::_Invalid_42 => 42,
            Cop1FloatInstruction::_Invalid_43 => 43,
            Cop1FloatInstruction::_Invalid_44 => 44,
            Cop1FloatInstruction::_Invalid_45 => 45,
            Cop1FloatInstruction::_Invalid_46 => 46,
            Cop1FloatInstruction::_F47 => 47,
            Cop1FloatInstruction::C_F => 48,
            Cop1FloatInstruction::C_UN => 49,
            Cop1FloatInstruction::C_EQ => 50,
            Cop1FloatInstruction::C_UEQ => 51,
            Cop1FloatInstruction::C_OLT => 52,
            Cop1FloatInstruction::C_ULT => 53,
            Cop1FloatInstruction::C_OLE => 54,
            Cop1FloatInstruction::C_ULE => 55,
            Cop1FloatInstruction::C_SF => 56,
            Cop1FloatInstruction::C_NGLE => 57,
            Cop1FloatInstruction::C_SEQ => 58,
            Cop1FloatInstruction::C_NGL => 59,
            Cop1FloatInstruction::C_LT => 60,
            Cop1FloatInstruction::C_NGE => 61,
            Cop1FloatInstruction::C_LE => 62,
            Cop1FloatInstruction::C_NGT => 63,
        }
    }

    pub fn value(self) -> (r: u32)
        ensures
            r == self.spec_value(),
            r < 64,
    {
        match self {
            Cop1FloatInstruction::ADD => 0,
            Cop1FloatInstruction::SUB => 1,
            Cop1FloatInstruction::MUL => 2,
            Cop1FloatInstruction::DIV => 3,
            Cop1FloatInstruction::SQRT => 4,
            Cop1FloatInstruction::ABS => 5,
            Cop1FloatInstruction::MOV => 6,
            Cop1FloatInstruction::NEG => 7,
            Cop1FloatInstruction::ROUND_L => 8,
            Cop1FloatInstruction::TRUNC_L => 9,
            Cop1FloatInstruction::CEIL_L => 10,
            Cop1FloatInstruction::FLOOR_L => 11,
            Cop1FloatInstruction::ROUND_W => 12,
            Cop1FloatInstruction::TRUNC_W => 13,
            Cop1FloatInstruction::CEIL_W => 14,
            Cop1FloatInstruction::FLOOR_W => 15,
            Cop1FloatInstruction::_F16 => 16,
            Cop1FloatInstruction::_Invalid_17 => 17,
            Cop1FloatInstruction::_Invalid_18 => 18,
            Cop1FloatInstruction::_Invalid_19 => 19,
            Cop1FloatInstruction::_Invalid_20 => 20,
            Cop1FloatInstruction::_Invalid_21 => 21,
            Cop1FloatInstruction::_Invalid_22 => 22,
            Cop1FloatInstruction::_Invalid_23 => 23,
            Cop1FloatInstruction::_Invalid_24 => 24,
            Cop1FloatInstruction::_Invalid_25 => 25,
            Cop1FloatInstruction::_Invalid_26 => 26,
            Cop1FloatInstruction::_Invalid_27 => 27,
            Cop1FloatInstruction::_Invalid_28 => 28,
            Cop1FloatInstruction::_Invalid_29 => 29,
            Cop1FloatInstruction::_Invalid_30 => 30,
            Cop1FloatInstruction::_F31 => 31,
            Cop1FloatInstruction::CVT_S => 32,
            Cop1FloatInstruction::CVT_D => 33,
            Cop1FloatInstruction::_F34 => 34,
            Cop1FloatInstruction::_F35 => 35,
            Cop1FloatInstruction::CVT_W => 36,
            Cop1FloatInstruction::CVT_L => 37,
            Cop1FloatInstruction::_F38 => 38,
            Cop1FloatInstruction::_Invalid_39 => 39,
            Cop1FloatInstruction::_Invalid_40 => 40,
            Cop1FloatInstruction::_Invalid_41 => 41,
            Cop1FloatInstruction::_Invalid_42 => 42,
            Cop1FloatInstruction::_Invalid_43 => 43,
            Cop1FloatInstruction::_Invalid_44 => 44,
            Cop1FloatInstruction::_Invalid_45 => 45,
            Cop1FloatInstruction::_Invalid_46 => 46,
            Cop1FloatInstruction::_F47 => 47,
            Cop1FloatInstruction::C_F => 48,
            Cop1FloatInstruction::C_UN => 49,
            Cop1FloatInstruction::C_EQ => 50,
            Cop1FloatInstruction::C_UEQ => 51,
            Cop1FloatInstruction::C_OLT => 52,
            Cop1FloatInstruction::C_ULT => 53,
            Cop1FloatInstruction::C_OLE => 54,
            Cop1FloatInstruction::C_ULE => 55,
            Cop1FloatInstruction::C_SF => 56,
            Cop1FloatInstruction::C_NGLE => 57,
            Cop1FloatInstruction::C_SEQ => 58,
            Cop1FloatInstruction::C_NGL => 59,
            Cop1FloatInstruction::C_LT => 60,
            Cop1FloatInstruction::C_NGE => 61,
            Cop1FloatInstruction::C_LE => 62,
            Cop1FloatInstruction::C_NGT => 63,
        }
    }
}


impl Cop1FloatInstruction {
    pub fn new_with_raw_value(raw: U6) -> (r: Cop1FloatInstruction)
        ensures
            r.spec_value() == raw@,
    {
        match raw.value() {
            0 => Cop1FloatInstruction::ADD,
            1 => Cop1FloatInstruction::SUB,
            2 => Cop1FloatInstruction::MUL,
            3 => Cop1FloatInstruction::DIV,
            4 => Cop1FloatInstruction::SQRT,
            5 => Cop1FloatInstruction::ABS,
            6 => Cop1FloatInstruction::MOV,
            7 => Cop1FloatInstruction::NEG,
            8 => Cop1FloatInstruction::ROUND_L,
            9 => Cop1FloatInstruction::TRUNC_L,
            10 => Cop1FloatInstruction::CEIL_L,
            11 => Cop1FloatInstruction::FLOOR_L,
            12 => Cop1FloatInstruction::ROUND_W,
            13 => Cop1FloatInstruction::TRUNC_W,
            14 => Cop1FloatInstruction::CEIL_W,
            15 => Cop1FloatInstruction::FLOOR_W,
            16 => Cop1FloatInstruction::_F16,
            17 => Cop1FloatInstruction::_Invalid_17,
            18 => Cop1FloatInstruction::_Invalid_18,
            19 => Cop1FloatInstruction::_Invalid_19,
            20 => Cop1FloatInstruction::_Invalid_20,
            21 => Cop1FloatInstruction::_Invalid_21,
            22 => Cop1FloatInstruction::_Invalid_22,
            23 => Cop1FloatInstruction::_Invalid_23,
            24 => Cop1FloatInstruction::_Invalid_24,
            25 => Cop1FloatInstruction::_Invalid_25,
            26 => Cop1FloatInstruction::_Invalid_26,
            27 => Cop1FloatInstruction::_Invalid_27,
            28 => Cop1FloatInstruction::_Invalid_28,
            29 => Cop1FloatInstruction::_Invalid_29,
            30 => Cop1FloatInstruction::_Invalid_30,
            31 => Cop1FloatInstruction::_F31,
            32 => Cop1FloatInstruction::CVT_S,
            33 => Cop1FloatInstruction::CVT_D,
            34 => Cop1FloatInstruction::_F34,
            35 => Cop1FloatInstruction::_F35,
            36 => Cop1FloatInstruction::CVT_W,
            37 => Cop1FloatInstruction::CVT_L,
            38 => Cop1FloatInstruction::_F38,
            39 => Cop1FloatInstruction::_Invalid_39,
            40 => Cop1FloatInstruction::_Invalid_40,
            41 => Cop1FloatInstruction::_Invalid_41,
            42 => Cop1FloatInstruction::_Invalid_42,
            43 => Cop1FloatInstruction::_Invalid_43,
            44 => Cop1FloatInstruction::_Invalid_44,
            45 => Cop1FloatInstruction::_Invalid_45,
            46 => Cop1FloatInstruction::_Invalid_46,
            47 => Cop1FloatInstruction::_F47,
            48 => Cop1FloatInstruction::C_F,
            49 => Cop1FloatInstruction::C_UN,
            50 => Cop1FloatInstruction::C_EQ,
            51 => Cop1FloatInstruction::C_UEQ,
            52 => Cop1FloatInstruction::C_OLT,
            53 => Cop1FloatInstruction::C_ULT,
            54 => Cop1FloatInstruction::C_OLE,
            55 => Cop1FloatInstruction::C_ULE,
            56 => Cop1FloatInstruction::C_SF,
            57 => Cop1FloatInstruction::C_NGLE,
            58 => Cop1FloatInstruction::C_SEQ,
            59 => Cop1FloatInstruction::C_NGL,
            60 => Cop1FloatInstruction::C_LT,
            61 => Cop1FloatInstruction::C_NGE,
            62 => Cop1FloatInstruction::C_LE,
            _ => Cop1FloatInstruction::C_NGT,
        }
    }

    pub fn raw_value(self) -> (r: U6)
        ensures
            r@ == self.spec_value(),
    {
        U6::new(self.value() as u8)
    }
}

/// FPU compare conditions: the function codes 48..=63 of C.cond.fmt.
#[allow(non_camel_case_types)]
#[derive(Clone, Copy, Debug, PartialEq, Eq, Structural)]
pub enum Cop1Condition {
    F,
    UN,
    EQ,
    UEQ,
    OLT,
    ULT,
    OLE,
    ULE,
    SF,
    NGLE,
    SEQ,
    NGL,
    LT,
    NGE,
    LE,
    NGT,
}

impl Cop1Condition {
    /// The number the hardware decodes for this value.
    pub open spec fn spec_value(self) -> u32 {
        match self {
            Cop1Condition::F => 48,
            Cop1Condition::UN => 49,
            Cop1Condition::EQ => 50,
            Cop1Condition::UEQ => 51,
            Cop1Condition::OLT => 52,
            Cop1Condition::ULT => 53,
            Cop1Condition::OLE => 54,
            Cop1Condition::ULE => 55,
            Cop1Condition::SF => 56,
            Cop1Condition::NGLE => 57,
            Cop1Condition::SEQ => 58,
            Cop1Condition::NGL => 59,
            Cop1Condition::LT => 60,
            Cop1Condition::NGE => 61,
            Cop1Condition::LE => 62,
            Cop1Condition::NGT => 63,
        }
    }

    pub fn value(self) -> (r: u32)
        ensures
            r == self.spec_value(),
            r < 64,
    {
        match self {
            Cop1Condition::F => 48,
            Cop1Condition::UN => 49,
            Cop1Condition::EQ => 50,
            Cop1Condition::UEQ => 51,
            Cop1Condition::OLT => 52,
            Cop1Condition::ULT => 53,
            Cop1Condition::OLE => 54,
            Cop1Condition::ULE => 55,
            Cop1Condition::SF => 56,
            Cop1Condition::NGLE => 57,
            Cop1Condition::SEQ => 58,
            Cop1Condition::NGL => 59,
            Cop1Condition::LT => 60,
            Cop1Condition::NGE => 61,
            Cop1Condition::LE => 62,
            Cop1Condition::NGT => 63,
        }
    }
}


impl Cop1Condition {
    pub fn raw_value(self) -> (r: U6)
        ensures
            r@ == self.spec_value(),
    {
        U6::new(self.value() as u8)
    }

    /// The condition with the given function code; codes outside 48..=63 are returned as the
    /// error.
    /// The condition with the given number (numbers outside 48..64 give the last one).
    pub open spec fn from_number(k: int) -> Cop1Condition {
        if k == 48 {
            Cop1Condition::F
        } else if k == 49 {
            Cop1Condition::UN
        } else if k == 50 {
            Cop1Condition::EQ
        } else if k == 51 {
            Cop1Condition::UEQ
        } else if k == 52 {
            Cop1Condition::OLT
        } else if k == 53 {
            Cop1Condition::ULT
        } else if k == 54 {
            Cop1Condition::OLE
        } else if k == 55 {
            Cop1Condition::ULE
        } else if k == 56 {
            Cop1Condition::SF
        } else if k == 57 {
            Cop1Condition::NGLE
        } else if k == 58 {
            Cop1Condition::SEQ
        } else if k == 59 {
            Cop1Condition::NGL
        } else if k == 60 {
            Cop1Condition::LT
        } else if k == 61 {
            Cop1Condition::NGE
        } else if k == 62 {
            Cop1Condition::LE
        } else {
            Cop1Condition::NGT
        }
    }

    /// What `steps_between` returns.
    pub open spec fn spec_steps_between(start: Cop1Condition, end: Cop1Condition) -> Option<usize> {
        if start.spec_value() <= end.spec_value() {
            Some((end.spec_value() - start.spec_value()) as usize)
        } else {
            None
        }
    }

    /// What `forward_checked` returns.
    pub open spec fn spec_forward_checked(start: Cop1Condition, count: int) -> Option<Cop1Condition> {
        if start.spec_value() + count < 64 {
            Some(Cop1Condition::from_number(start.spec_value() + count))
        } else {
            None
        }
    }

    /// What `backward_checked` returns.
    pub open spec fn spec_backward_checked(start: Cop1Condition, count: int) -> Option<Cop1Condition> {
        if start.spec_value() - count >= 48 {
            Some(Cop1Condition::from_number(start.spec_value() - count))
        } else {
            None
        }
    }

    pub fn new_with_raw_value(raw: U6) -> (r: Result<Cop1Condition, u8>)
        ensures
            match r {
                Ok(c) => c.spec_value() == raw@,
                Err(v) => v == raw@ && !(48 <= raw@ < 64),
            },
    {
        match raw.value() {
            48 => Ok(Cop1Condition::F),
            49 => Ok(Cop1Condition::UN),
            50 => Ok(Cop1Condition::EQ),
            51 => Ok(Cop1Condition::UEQ),
            52 => Ok(Cop1Condition::OLT),
            53 => Ok(Cop1Condition::ULT),
            54 => Ok(Cop1Condition::OLE),
            55 => Ok(Cop1Condition::ULE),
            56 => Ok(Cop1Condition::SF),
            57 => Ok(Cop1Condition::NGLE),
            58 => Ok(Cop1Condition::SEQ),
            59 => Ok(Cop1Condition::NGL),
            60 => Ok(Cop1Condition::LT),
            61 => Ok(Cop1Condition::NGE),
            62 => Ok(Cop1Condition::LE),
            63 => Ok(Cop1Condition::NGT),
            v => Err(v),
        }
    }

    /// Number of steps from `start` to `end`, if `start` does not come after `end`.
    pub fn steps_between(start: &Cop1Condition, end: &Cop1Condition) -> (r: Option<usize>)
        ensures
            r == Cop1Condition::spec_steps_between(*start, *end),
            r == if start.spec_value() <= end.spec_value() {
                Some((end.spec_value() - start.spec_value()) as usize)
            } else {
                None
            },
    {
        let s = start.value() as usize;
        let e = end.value() as usize;
        if s <= e {
            Some(e - s)
        } else {
            None
        }
    }

    /// The condition `count` steps after `start`, if there is one.
    pub fn forward_checked(start: Cop1Condition, count: usize) -> (r: Option<Cop1Condition>)
        ensures
            r == Cop1Condition::spec_forward_checked(start, count as int),
            match r {
                Some(n) => start.spec_value() + count < 64 && n.spec_value() == start.spec_value()
                    + count,
                None => start.spec_value() + count >= 64,
            },
    {
        let s = start.raw_value().value() as usize;
        if count >= 64 - s {
            return None;
        }
        let next = s + count;
        if next >= 48 && next < 64 {
            match Cop1Condition::new_with_raw_value(U6::new(next as u8)) {
                Ok(c) => Some(c),
                Err(_) => None,
            }
        } else {
            None
        }
    }

    /// The condition `count` steps before `start`, if there is one.
    pub fn backward_checked(start: Cop1Condition, count: usize) -> (r: Option<Cop1Condition>)
        ensures
            r == Cop1Condition::spec_backward_checked(start, count as int),
            match r {
                Some(n) => start.spec_value() - count >= 48 && n.spec_value() == start.spec_value()
                    - count,
                None => start.spec_value() - count < 48,
            },
    {
        let s = start.raw_value().value() as usize;
        if count > s {
            return None;
        }
        let next = s - count;
        if next >= 48 && next < 64 {
            match Cop1Condition::new_with_raw_value(U6::new(next as u8)) {
                Ok(c) => Some(c),
                Err(_) => None,
            }
        } else {
            None
        }
    }
}


/// I-type layout: opcode in bits 31..=26, rs 25..=21, rt 20..=16, immediate 15..=0.
pub open spec fn itype(op: u32, rs: u8, rt: u8, imm: u16) -> u32 {
    (op * 0x400_0000 + rs * 0x20_0000 + rt * 0x1_0000 + imm) as u32
}

/// SPECIAL layout: opcode 0, rs in bits 25..=21, rt 20..=16, rd 15..=11, sa 10..=6, function
/// 5..=0.
pub open spec fn rtype(rs: u8, rt: u8, rd: u8, sa: u8, funct: u32) -> u32 {
    (rs * 0x20_0000 + rt * 0x1_0000 + rd * 0x800 + sa * 0x40 + funct) as u32
}

/// REGIMM layout: opcode 1, rs in bits 25..=21, the REGIMM code in 20..=16, immediate 15..=0.
pub open spec fn regimm_word(rs: u8, op: u32, imm: u16) -> u32 {
    (0x400_0000 + rs * 0x20_0000 + op * 0x1_0000 + imm) as u32
}

/// Coprocessor layout: opcode COPz, sub-opcode in bits 25..=21, rt 20..=16, rd 15..=11.
pub open spec fn cop_word(cop: u32, op: u32, rt: u8, rd: u8) -> u32 {
    (cop * 0x400_0000 + op * 0x20_0000 + rt * 0x1_0000 + rd * 0x800) as u32
}

/// FPU arithmetic layout without its format: opcode COP1, ft in bits 20..=16, fs 15..=11, fd
/// 10..=6, function 5..=0; bits 25..=21 (the format) are zero.
pub open spec fn float_word(funct: u32, fd: u8, fs: u8, ft: u8) -> u32 {
    (0x4400_0000 + ft * 0x1_0000 + fs * 0x800 + fd * 0x40 + funct) as u32
}

proof fn lemma_itype_bits(op: u32, rs: u32, rt: u32, imm: u32)
    by (bit_vector)
    requires
        op < 64,
        rs < 32,
        rt < 32,
        imm < 0x1_0000,
    ensures
        imm | (rt << 16u32) | (rs << 21u32) | (op << 26u32) == op * 0x400_0000 + rs * 0x20_0000 + rt
            * 0x1_0000 + imm,
        (imm | (rt << 16u32) | (rs << 21u32) | (op << 26u32)) >> 26u32 == op,
        ((imm | (rt << 16u32) | (rs << 21u32) | (op << 26u32)) >> 21u32) & 0x1F == rs,
        ((imm | (rt << 16u32) | (rs << 21u32) | (op << 26u32)) >> 16u32) & 0x1F == rt,
        (imm | (rt << 16u32) | (rs << 21u32) | (op << 26u32)) & 0xFFFF == imm,
{
}

proof fn lemma_rtype_bits(funct: u32, sa: u32, rd: u32, rt: u32, rs: u32)
    by (bit_vector)
    requires
        funct < 64,
        sa < 32,
        rd < 32,
        rt < 32,
        rs < 32,
    ensures
        funct | (sa << 6u32) | (rd << 11u32) | (rt << 16u32) | (rs << 21u32) | (0u32 << 26u32)
            == rs * 0x20_0000 + rt * 0x1_0000 + rd * 0x800 + sa * 0x40 + funct,
        (funct | (sa << 6u32) | (rd << 11u32) | (rt << 16u32) | (rs << 21u32) | (0u32 << 26u32))
            >> 26u32 == 0,
        ((funct | (sa << 6u32) | (rd << 11u32) | (rt << 16u32) | (rs << 21u32) | (0u32 << 26u32))
            >> 21u32) & 0x1F == rs,
        ((funct | (sa << 6u32) | (rd << 11u32) | (rt << 16u32) | (rs << 21u32) | (0u32 << 26u32))
            >> 16u32) & 0x1F == rt,
        ((funct | (sa << 6u32) | (rd << 11u32) | (rt << 16u32) | (rs << 21u32) | (0u32 << 26u32))
            >> 11u32) & 0x1F == rd,
        ((funct | (sa << 6u32) | (rd << 11u32) | (rt << 16u32) | (rs << 21u32) | (0u32 << 26u32))
            >> 6u32) & 0x1F == sa,
        (funct | (sa << 6u32) | (rd << 11u32) | (rt << 16u32) | (rs << 21u32) | (0u32 << 26u32))
            & 0x3F == funct,
{
}

proof fn lemma_cop_bits(cop: u32, op: u32, rt: u32, rd: u32)
    by (bit_vector)
    requires
        cop < 64,
        op < 32,
        rt < 32,
        rd < 32,
    ensures
        (rd << 11u32) | (rt << 16u32) | (op << 21u32) | (cop << 26u32) == cop * 0x400_0000 + op
            * 0x20_0000 + rt * 0x1_0000 + rd * 0x800,
        ((rd << 11u32) | (rt << 16u32) | (op << 21u32) | (cop << 26u32)) >> 26u32 == cop,
        (((rd << 11u32) | (rt << 16u32) | (op << 21u32) | (cop << 26u32)) >> 21u32) & 0x1F == op,
        (((rd << 11u32) | (rt << 16u32) | (op << 21u32) | (cop << 26u32)) >> 16u32) & 0x1F == rt,
        (((rd << 11u32) | (rt << 16u32) | (op << 21u32) | (cop << 26u32)) >> 11u32) & 0x1F == rd,
        ((rd << 11u32) | (rt << 16u32) | (op << 21u32) | (cop << 26u32)) & 0x7FF == 0,
{
}

proof fn lemma_float_bits(funct: u32, fd: u32, fs: u32, ft: u32)
    by (bit_vector)
    requires
        funct < 64,
        fd < 32,
        fs < 32,
        ft < 32,
    ensures
        funct | (fd << 6u32) | (fs << 11u32) | (ft << 16u32) | (17u32 << 26u32) == 0x4400_0000 + ft
            * 0x1_0000 + fs * 0x800 + fd * 0x40 + funct,
        ((funct | (fd << 6u32) | (fs << 11u32) | (ft << 16u32) | (17u32 << 26u32)) >> 21u32) & 0x1F
            == 0,
{
}

proof fn lemma_format_bits(v: u32, fmt: u32)
    by (bit_vector)
    requires
        (v >> 21u32) & 0x1F == 0,
        fmt < 32,
    ensures
        v | (fmt << 21u32) == v + fmt * 0x20_0000,
{
}

/// An FPU arithmetic instruction awaiting its format: `s`, `d`, `w` and `l` fill bits 25..=21.
pub struct FPUFloatInstruction {
    value: u32,
}

impl View for FPUFloatInstruction {
    type V = u32;

    closed spec fn view(&self) -> u32 {
        self.value
    }
}

impl FPUFloatInstruction {
    #[verifier::type_invariant]
    spec fn format_free(self) -> bool {
        (self.value >> 21u32) & 0x1F == 0
    }

    fn new(value: u32) -> (r: FPUFloatInstruction)
        requires
            (value >> 21u32) & 0x1F == 0,
        ensures
            r@ == value,
    {
        FPUFloatInstruction { value }
    }

    fn with_format(&self, format: Cop1Opcode) -> (r: u32)
        requires
            format.spec_value() < 32,
        ensures
            r == self@ + format.spec_value() * 0x20_0000,
    {
        proof {
            use_type_invariant(self);
            lemma_format_bits(self.value, format.spec_value());
        }
        self.value | (format.value() << 21u32)
    }

    /// Single precision.
    pub fn s(&self) -> (r: u32)
        ensures
            r == self@ + 16 * 0x20_0000,
    {
        self.with_format(Cop1Opcode::S)
    }

    /// Double precision.
    pub fn d(&self) -> (r: u32)
        ensures
            r == self@ + 17 * 0x20_0000,
    {
        self.with_format(Cop1Opcode::D)
    }

    /// 32-bit fixed point.
    pub fn w(&self) -> (r: u32)
        ensures
            r == self@ + 20 * 0x20_0000,
    {
        self.with_format(Cop1Opcode::W)
    }

    /// 64-bit fixed point.
    pub fn l(&self) -> (r: u32)
        ensures
            r == self@ + 21 * 0x20_0000,
    {
        self.with_format(Cop1Opcode::L)
    }
}

pub struct Assembler {}

impl Assembler {
    pub fn make_main_immediate(op: Opcode, rt: GPR, rs: GPR, imm: u16) -> (r: u32)
        ensures
            r == itype(op.spec_value(), rs.id(), rt.id(), imm),
    {
        let rt_v = rt.raw_value().value() as u32;
        let rs_v = rs.raw_value().value() as u32;
        let op_v = op.value();
        proof {
            lemma_itype_bits(op_v, rs_v, rt_v, imm as u32);
        }
        (imm as u32) | (rt_v << 16u32) | (rs_v << 21u32) | (op_v << 26u32)
    }

    pub fn make_special(op: SpecialOpcode, sa: U5, rd: U5, rs: U5, rt: U5) -> (r: u32)
        ensures
            r == rtype(rs@, rt@, rd@, sa@, op.spec_value()),
    {
        let f = op.value();
        let sa_v = sa.value() as u32;
        let rd_v = rd.value() as u32;
        let rt_v = rt.value() as u32;
        let rs_v = rs.value() as u32;
        proof {
            lemma_rtype_bits(f, sa_v, rd_v, rt_v, rs_v);
        }
        f | (sa_v << 6u32) | (rd_v << 11u32) | (rt_v << 16u32) | (rs_v << 21u32) | (
        Opcode::SPECIAL.value() << 26u32)
    }

    fn make_regimm(op: RegimmOpcode, rs: GPR, imm: u16) -> (r: u32)
        ensures
            r == regimm_word(rs.id(), op.spec_value(), imm),
    {
        let op_v = op.value();
        let rs_v = rs.raw_value().value() as u32;
        proof {
            lemma_itype_bits(1, rs_v, op_v, imm as u32);
        }
        (imm as u32) | (op_v << 16u32) | (rs_v << 21u32) | (Opcode::REGIMM.value() << 26u32)
    }

    pub fn make_regimm_trap(op: RegimmOpcode, rs: U5, imm: u16) -> (r: u32)
        ensures
            r == regimm_word(rs@, op.spec_value(), imm),
    {
        Self::make_regimm(op, GPR::new_with_raw_value(rs), imm)
    }

    fn make_cop0instruction(instruction: Cop0Opcode, rt: U5, rd: U5) -> (r: u32)
        ensures
            r == cop_word(16, instruction.spec_value(), rt@, rd@),
    {
        let rd_v = rd.value() as u32;
        let rt_v = rt.value() as u32;
        let op_v = instruction.value();
        proof {
            lemma_cop_bits(16, op_v, rt_v, rd_v);
        }
        (rd_v << 11u32) | (rt_v << 16u32) | (op_v << 21u32) | (Opcode::COP0.value() << 26u32)
    }

    fn make_cop0tlbinstruction(instruction: Cop0TLBInstruction) -> (r: u32)
        ensures
            r == (0x4000_0000 + 16 * 0x20_0000 + instruction.spec_value()) as u32,
    {
        let f = instruction.value();
        let tlb = Cop0Opcode::TLB.value();
        let cop0 = Opcode::COP0.value();
        assert(f < 64 && tlb == 16 && cop0 == 16 ==> f | (tlb << 21u32) | (cop0 << 26u32) == 0x4000_0000
            + 16 * 0x20_0000 + f) by (bit_vector);
        f | (tlb << 21u32) | (cop0 << 26u32)
    }

    fn make_cop1instruction(instruction: Cop1Opcode, rt: U5, rd: U5) -> (r: u32)
        ensures
            r == cop_word(17, instruction.spec_value(), rt@, rd@),
    {
        let rd_v = rd.value() as u32;
        let rt_v = rt.value() as u32;
        let op_v = instruction.value();
        proof {
            lemma_cop_bits(17, op_v, rt_v, rd_v);
        }
        (rd_v << 11u32) | (rt_v << 16u32) | (op_v << 21u32) | (Opcode::COP1.value() << 26u32)
    }

    fn make_cop2instruction(instruction: Cop2Opcode, rt: U5, rd: U5) -> (r: u32)
        ensures
            r == cop_word(18, instruction.spec_value(), rt@, rd@),
    {
        let rd_v = rd.value() as u32;
        let rt_v = rt.value() as u32;
        let op_v = instruction.value();
        proof {
            lemma_cop_bits(18, op_v, rt_v, rd_v);
        }
        (rd_v << 11u32) | (rt_v << 16u32) | (op_v << 21u32) | (Opcode::COP2.value() << 26u32)
    }

    fn make_cop3instruction(instruction: Cop3Opcode, rt: U5, rd: U5) -> (r: u32)
        ensures
            r == cop_word(19, instruction.spec_value(), rt@, rd@),
    {
        let rd_v = rd.value() as u32;
        let rt_v = rt.value() as u32;
        let op_v = instruction.value();
        proof {
            lemma_cop_bits(19, op_v, rt_v, rd_v);
        }
        (rd_v << 11u32) | (rt_v << 16u32) | (op_v << 21u32) | (Opcode::COP3.value() << 26u32)
    }

    pub fn make_cop1_float_instruction(
        instruction: Cop1FloatInstruction,
        fd: FR,
        fs: FR,
        ft: FR,
    ) -> (r: FPUFloatInstruction)
        ensures
            r@ == float_word(instruction.spec_value(), fd.id(), fs.id(), ft.id()),
    {
        let f = instruction.value();
        let fd_v = fd.raw_value().value() as u32;
        let fs_v = fs.raw_value().value() as u32;
        let ft_v = ft.raw_value().value() as u32;
        proof {
            lemma_float_bits(f, fd_v, fs_v, ft_v);
        }
        FPUFloatInstruction::new(
            f | (fd_v << 6u32) | (fs_v << 11u32) | (ft_v << 16u32) | (Opcode::COP1.value() << 26u32),
        )
    }

    pub fn make_jal(imm26: U26) -> (r: u32)
        ensures
            r == 3 * 0x400_0000 + imm26@,
    {
        let v = imm26.value();
        assert(v < 0x400_0000 ==> v | (3u32 << 26u32) == 3 * 0x400_0000 + v) by (bit_vector);
        v | (Opcode::JAL.value() << 26u32)
    }

    /// emux is an emulator only instruction, which uses TNE with the same registers.
    pub fn make_emux(r: GPR, function: U5) -> (w: u32)
        ensures
            w == rtype(r.id(), r.id(), 0, function@, 54),
    {
        let f = function.value() as u32;
        let rv = r.raw_value().value() as u32;
        let tne = SpecialOpcode::TNE.value();
        let special = Opcode::SPECIAL.value();
        proof {
            lemma_rtype_bits(54, f, 0, rv, rv);
            assert(tne | (f << 6u32) | (rv << 16u32) | (rv << 21u32) | (special << 26u32) == tne | (
            f << 6u32) | (0u32 << 11u32) | (rv << 16u32) | (rv << 21u32) | (0u32 << 26u32))
                by (bit_vector)
                requires
                    special == 0,
            ;
        }
        tne | (f << 6u32) | (rv << 16u32) | (rv << 21u32) | (special << 26u32)
    }

    pub fn make_cop1_c_cond(condition: Cop1Condition, fs: FR, ft: FR) -> (r: FPUFloatInstruction)
        ensures
            r@ == float_word(condition.spec_value(), 0, fs.id(), ft.id()),
    {
        Self::make_cop1_float_instruction(
            Cop1FloatInstruction::new_with_raw_value(condition.raw_value()),
            FR::F0,
            fs,
            ft,
        )
    }

    pub fn make_addi(rt: GPR, rs: GPR, immediate: i16) -> (r: u32)
        ensures
            r == itype(Opcode::ADDI.spec_value(), rs.id(), rt.id(), immediate as u16),
    {
        Self::make_main_immediate(Opcode::ADDI, rt, rs, immediate as u16)
    }

    pub fn make_addiu(rt: GPR, rs: GPR, immediate: i16) -> (r: u32)
        ensures
            r == itype(Opcode::ADDIU.spec_value(), rs.id(), rt.id(), immediate as u16),
    {
        Self::make_main_immediate(Opcode::ADDIU, rt, rs, immediate as u16)
    }

    pub fn make_daddi(rt: GPR, rs: GPR, immediate: i16) -> (r: u32)
        ensures
            r == itype(Opcode::DADDI.spec_value(), rs.id(), rt.id(), immediate as u16),
    {
        Self::make_main_immediate(Opcode::DADDI, rt, rs, immediate as u16)
    }

    pub fn make_daddiu(rt: GPR, rs: GPR, immediate: i16) -> (r: u32)
        ensures
            r == itype(Opcode::DADDIU.spec_value(), rs.id(), rt.id(), immediate as u16),
    {
        Self::make_main_immediate(Opcode::DADDIU, rt, rs, immediate as u16)
    }

    pub fn make_slti(rt: GPR, rs: GPR, immediate: i16) -> (r: u32)
        ensures
            r == itype(Opcode::SLTI.spec_value(), rs.id(), rt.id(), immediate as u16),
    {
        Self::make_main_immediate(Opcode::SLTI, rt, rs, immediate as u16)
    }

    pub fn make_sltiu(rt: GPR, rs: GPR, immediate: i16) -> (r: u32)
        ensures
            r == itype(Opcode::SLTIU.spec_value(), rs.id(), rt.id(), immediate as u16),
    {
        Self::make_main_immediate(Opcode::SLTIU, rt, rs, immediate as u16)
    }

    pub fn make_andi(rt: GPR, rs: GPR, immediate: u16) -> (r: u32)
        ensures
            r == itype(Opcode::ANDI.spec_value(), rs.id(), rt.id(), immediate),
    {
        Self::make_main_immediate(Opcode::ANDI, rt, rs, immediate)
    }

    pub fn make_ori(rt: GPR, rs: GPR, immediate: u16) -> (r: u32)
        ensures
            r == itype(Opcode::ORI.spec_value(), rs.id(), rt.id(), immediate),
    {
        Self::make_main_immediate(Opcode::ORI, rt, rs, immediate)
    }

    pub fn make_xori(rt: GPR, rs: GPR, immediate: u16) -> (r: u32)
        ensures
            r == itype(Opcode::XORI.spec_value(), rs.id(), rt.id(), immediate),
    {
        Self::make_main_immediate(Opcode::XORI, rt, rs, immediate)
    }

    pub fn make_lui(rt: GPR, immediate: i16) -> (r: u32)
        ensures
            r == itype(Opcode::LUI.spec_value(), 0, rt.id(), immediate as u16),
    {
        Self::make_lui_with_rs(rt, GPR::R0, immediate)
    }

    pub fn make_lui_with_rs(rt: GPR, rs: GPR, immediate: i16) -> (r: u32)
        ensures
            r == itype(Opcode::LUI.spec_value(), rs.id(), rt.id(), immediate as u16),
    {
        Self::make_main_immediate(Opcode::LUI, rt, rs, immediate as u16)
    }

    pub fn make_b(offset_as_instruction_count: i16) -> (r: u32)
        ensures
            r == itype(Opcode::BEQ.spec_value(), 0, 0, offset_as_instruction_count as u16),
    {
        Self::make_beq(GPR::R0, GPR::R0, offset_as_instruction_count)
    }

    pub fn make_beq(rt: GPR, rs: GPR, offset_as_instruction_count: i16) -> (r: u32)
        ensures
            r == itype(Opcode::BEQ.spec_value(), rs.id(), rt.id(), offset_as_instruction_count as u16),
    {
        Self::make_main_immediate(Opcode::BEQ, rt, rs, offset_as_instruction_count as u16)
    }

    pub fn make_beql(rt: GPR, rs: GPR, offset_as_instruction_count: i16) -> (r: u32)
        ensures
            r == itype(Opcode::BEQL.spec_value(), rs.id(), rt.id(), offset_as_instruction_count as u16),
    {
        Self::make_main_immediate(Opcode::BEQL, rt, rs, offset_as_instruction_count as u16)
    }

    pub fn make_bne(rt: GPR, rs: GPR, offset_as_instruction_count: i16) -> (r: u32)
        ensures
            r == itype(Opcode::BNE.spec_value(), rs.id(), rt.id(), offset_as_instruction_count as u16),
    {
        Self::make_main_immediate(Opcode::BNE, rt, rs, offset_as_instruction_count as u16)
    }

    pub fn make_bnel(rt: GPR, rs: GPR, offset_as_instruction_count: i16) -> (r: u32)
        ensures
            r == itype(Opcode::BNEL.spec_value(), rs.id(), rt.id(), offset_as_instruction_count as u16),
    {
        Self::make_main_immediate(Opcode::BNEL, rt, rs, offset_as_instruction_count as u16)
    }

    pub fn make_bgtz(rs: GPR, offset_as_instruction_count: i16) -> (r: u32)
        ensures
            r == itype(Opcode::BGTZ.spec_value(), rs.id(), 0, offset_as_instruction_count as u16),
    {
        Self::make_bgtz_with_extras(rs, GPR::R0, offset_as_instruction_count)
    }

    pub fn make_bgtz_with_extras(rs: GPR, rt: GPR, offset_as_instruction_count: i16) -> (r: u32)
        ensures
            r == itype(Opcode::BGTZ.spec_value(), rs.id(), rt.id(), offset_as_instruction_count as u16),
    {
        Self::make_main_immediate(Opcode::BGTZ, rt, rs, offset_as_instruction_count as u16)
    }

    pub fn make_bgtzl(rs: GPR, offset_as_instruction_count: i16) -> (r: u32)
        ensures
            r == itype(Opcode::BGTZL.spec_value(), rs.id(), 0, offset_as_instruction_count as u16),
    {
        Self::make_bgtzl_with_extras(rs, GPR::R0, offset_as_instruction_count)
    }

    pub fn make_bgtzl_with_extras(rs: GPR, rt: GPR, offset_as_instruction_count: i16) -> (r: u32)
        ensures
            r == itype(Opcode::BGTZL.spec_value(), rs.id(), rt.id(), offset_as_instruction_count as u16),
    {
        Self::make_main_immediate(Opcode::BGTZL, rt, rs, offset_as_instruction_count as u16)
    }

    pub fn make_blez(rs: GPR, offset_as_instruction_count: i16) -> (r: u32)
        ensures
            r == itype(Opcode::BLEZ.spec_value(), rs.id(), 0, offset_as_instruction_count as u16),
    {
        Self::make_blez_with_extras(rs, GPR::R0, offset_as_instruction_count)
    }

    pub fn make_blez_with_extras(rs: GPR, rt: GPR, offset_as_instruction_count: i16) -> (r: u32)
        ensures
            r == itype(Opcode::BLEZ.spec_value(), rs.id(), rt.id(), offset_as_instruction_count as u16),
    {
        Self::make_main_immediate(Opcode::BLEZ, rt, rs, offset_as_instruction_count as u16)
    }

    pub fn make_blezl(rs: GPR, offset_as_instruction_count: i16) -> (r: u32)
        ensures
            r == itype(Opcode::BLEZL.spec_value(), rs.id(), 0, offset_as_instruction_count as u16),
    {
        Self::make_blezl_with_extras(rs, GPR::R0, offset_as_instruction_count)
    }

    pub fn make_blezl_with_extras(rs: GPR, rt: GPR, offset_as_instruction_count: i16) -> (r: u32)
        ensures
            r == itype(Opcode::BLEZL.spec_value(), rs.id(), rt.id(), offset_as_instruction_count as u16),
    {
        Self::make_main_immediate(Opcode::BLEZL, rt, rs, offset_as_instruction_count as u16)
    }

    pub fn make_add(rd: GPR, rs: GPR, rt: GPR) -> (r: u32)
        ensures
            r == rtype(rs.id(), rt.id(), rd.id(), 0, SpecialOpcode::ADD.spec_value()),
    {
        Self::make_special(
            SpecialOpcode::ADD,
            U5::new(0),
            rd.raw_value(),
            rs.raw_value(),
            rt.raw_value(),
        )
    }

    pub fn make_addu(rd: GPR, rs: GPR, rt: GPR) -> (r: u32)
        ensures
            r == rtype(rs.id(), rt.id(), rd.id(), 0, SpecialOpcode::ADDU.spec_value()),
    {
        Self::make_special(
            SpecialOpcode::ADDU,
            U5::new(0),
            rd.raw_value(),
            rs.raw_value(),
            rt.raw_value(),
        )
    }

    pub fn make_sub(rd: GPR, rs: GPR, rt: GPR) -> (r: u32)
        ensures
            r == rtype(rs.id(), rt.id(), rd.id(), 0, SpecialOpcode::SUB.spec_value()),
    {
        Self::make_special(
            SpecialOpcode::SUB,
            U5::new(0),
            rd.raw_value(),
            rs.raw_value(),
            rt.raw_value(),
        )
    }

    pub fn make_subu(rd: GPR, rs: GPR, rt: GPR) -> (r: u32)
        ensures
            r == rtype(rs.id(), rt.id(), rd.id(), 0, SpecialOpcode::SUBU.spec_value()),
    {
        Self::make_special(
            SpecialOpcode::SUBU,
            U5::new(0),
            rd.raw_value(),
            rs.raw_value(),
            rt.raw_value(),
        )
    }

    pub fn make_and(rd: GPR, rs: GPR, rt: GPR) -> (r: u32)
        ensures
            r == rtype(rs.id(), rt.id(), rd.id(), 0, SpecialOpcode::AND.spec_value()),
    {
        Self::make_special(
            SpecialOpcode::AND,
            U5::new(0),
            rd.raw_value(),
            rs.raw_value(),
            rt.raw_value(),
        )
    }

    pub fn make_or(rd: GPR, rs: GPR, rt: GPR) -> (r: u32)
        ensures
            r == rtype(rs.id(), rt.id(), rd.id(), 0, SpecialOpcode::OR.spec_value()),
    {
        Self::make_special(
            SpecialOpcode::OR,
            U5::new(0),
            rd.raw_value(),
            rs.raw_value(),
            rt.raw_value(),
        )
    }

    pub fn make_xor(rd: GPR, rs: GPR, rt: GPR) -> (r: u32)
        ensures
            r == rtype(rs.id(), rt.id(), rd.id(), 0, SpecialOpcode::XOR.spec_value()),
    {
        Self::make_special(
            SpecialOpcode::XOR,
            U5::new(0),
            rd.raw_value(),
            rs.raw_value(),
            rt.raw_value(),
        )
    }

    pub fn make_nor(rd: GPR, rs: GPR, rt: GPR) -> (r: u32)
        ensures
            r == rtype(rs.id(), rt.id(), rd.id(), 0, SpecialOpcode::NOR.spec_value()),
    {
        Self::make_special(
            SpecialOpcode::NOR,
            U5::new(0),
            rd.raw_value(),
            rs.raw_value(),
            rt.raw_value(),
        )
    }

    pub fn make_slt(rd: GPR, rs: GPR, rt: GPR) -> (r: u32)
        ensures
            r == rtype(rs.id(), rt.id(), rd.id(), 0, SpecialOpcode::SLT.spec_value()),
    {
        Self::make_special(
            SpecialOpcode::SLT,
            U5::new(0),
            rd.raw_value(),
            rs.raw_value(),
            rt.raw_value(),
        )
    }

    pub fn make_sltu(rd: GPR, rs: GPR, rt: GPR) -> (r: u32)
        ensures
            r == rtype(rs.id(), rt.id(), rd.id(), 0, SpecialOpcode::SLTU.spec_value()),
    {
        Self::make_special(
            SpecialOpcode::SLTU,
            U5::new(0),
            rd.raw_value(),
            rs.raw_value(),
            rt.raw_value(),
        )
    }

    pub fn make_dadd(rd: GPR, rs: GPR, rt: GPR) -> (r: u32)
        ensures
            r == rtype(rs.id(), rt.id(), rd.id(), 0, SpecialOpcode::DADD.spec_value()),
    {
        Self::make_special(
            SpecialOpcode::DADD,
            U5::new(0),
            rd.raw_value(),
            rs.raw_value(),
            rt.raw_value(),
        )
    }

    pub fn make_daddu(rd: GPR, rs: GPR, rt: GPR) -> (r: u32)
        ensures
            r == rtype(rs.id(), rt.id(), rd.id(), 0, SpecialOpcode::DADDU.spec_value()),
    {
        Self::make_special(
            SpecialOpcode::DADDU,
            U5::new(0),
            rd.raw_value(),
            rs.raw_value(),
            rt.raw_value(),
        )
    }

    pub fn make_dsub(rd: GPR, rs: GPR, rt: GPR) -> (r: u32)
        ensures
            r == rtype(rs.id(), rt.id(), rd.id(), 0, SpecialOpcode::DSUB.spec_value()),
    {
        Self::make_special(
            SpecialOpcode::DSUB,
            U5::new(0),
            rd.raw_value(),
            rs.raw_value(),
            rt.raw_value(),
        )
    }

    pub fn make_dsubu(rd: GPR, rs: GPR, rt: GPR) -> (r: u32)
        ensures
            r == rtype(rs.id(), rt.id(), rd.id(), 0, SpecialOpcode::DSUBU.spec_value()),
    {
        Self::make_special(
            SpecialOpcode::DSUBU,
            U5::new(0),
            rd.raw_value(),
            rs.raw_value(),
            rt.raw_value(),
        )
    }

    pub fn make_tne(rs: GPR, rt: GPR) -> (r: u32)
        ensures
            r == rtype(rs.id(), rt.id(), 0, 0, SpecialOpcode::TNE.spec_value()),
    {
        Self::make_special(
            SpecialOpcode::TNE,
            U5::new(0),
            U5::new(0),
            rs.raw_value(),
            rt.raw_value(),
        )
    }

    pub fn make_teq(rs: GPR, rt: GPR) -> (r: u32)
        ensures
            r == rtype(rs.id(), rt.id(), 0, 0, SpecialOpcode::TEQ.spec_value()),
    {
        Self::make_special(
            SpecialOpcode::TEQ,
            U5::new(0),
            U5::new(0),
            rs.raw_value(),
            rt.raw_value(),
        )
    }

    pub fn make_tge(rs: GPR, rt: GPR) -> (r: u32)
        ensures
            r == rtype(rs.id(), rt.id(), 0, 0, SpecialOpcode::TGE.spec_value()),
    {
        Self::make_special(
            SpecialOpcode::TGE,
            U5::new(0),
            U5::new(0),
            rs.raw_value(),
            rt.raw_value(),
        )
    }

    pub fn make_tlt(rs: GPR, rt: GPR) -> (r: u32)
        ensures
            r == rtype(rs.id(), rt.id(), 0, 0, SpecialOpcode::TLT.spec_value()),
    {
        Self::make_special(
            SpecialOpcode::TLT,
            U5::new(0),
            U5::new(0),
            rs.raw_value(),
            rt.raw_value(),
        )
    }

    pub fn make_tgeu(rs: GPR, rt: GPR) -> (r: u32)
        ensures
            r == rtype(rs.id(), rt.id(), 0, 0, SpecialOpcode::TGEU.spec_value()),
    {
        Self::make_special(
            SpecialOpcode::TGEU,
            U5::new(0),
            U5::new(0),
            rs.raw_value(),
            rt.raw_value(),
        )
    }

    pub fn make_tltu(rs: GPR, rt: GPR) -> (r: u32)
        ensures
            r == rtype(rs.id(), rt.id(), 0, 0, SpecialOpcode::TLTU.spec_value()),
    {
        Self::make_special(
            SpecialOpcode::TLTU,
            U5::new(0),
            U5::new(0),
            rs.raw_value(),
            rt.raw_value(),
        )
    }

    pub fn make_jr(rs: GPR) -> (r: u32)
        ensures
            r == rtype(rs.id(), 0, 0, 0, SpecialOpcode::JR.spec_value()),
    {
        Self::make_jr_with_extras(rs, GPR::R0)
    }

    pub fn make_jr_with_extras(rs: GPR, rt: GPR) -> (r: u32)
        ensures
            r == rtype(rs.id(), rt.id(), 0, 0, SpecialOpcode::JR.spec_value()),
    {
        Self::make_special(
            SpecialOpcode::JR,
            U5::new(0),
            U5::new(0),
            rs.raw_value(),
            rt.raw_value(),
        )
    }

    pub fn make_jalr(return_reg: GPR, rs: GPR) -> (r: u32)
        ensures
            r == rtype(rs.id(), 0, return_reg.id(), 0, SpecialOpcode::JALR.spec_value()),
    {
        Self::make_special(
            SpecialOpcode::JALR,
            U5::new(0),
            return_reg.raw_value(),
            rs.raw_value(),
            U5::new(0),
        )
    }

    pub fn make_sll(rd: GPR, rt: GPR, sa: U5) -> (r: u32)
        ensures
            r == rtype(0, rt.id(), rd.id(), sa@, SpecialOpcode::SLL.spec_value()),
    {
        Self::make_sll_with_extras(rd, rt, GPR::R0, sa)
    }

    pub fn make_sll_with_extras(rd: GPR, rt: GPR, rs: GPR, sa: U5) -> (r: u32)
        ensures
            r == rtype(rs.id(), rt.id(), rd.id(), sa@, SpecialOpcode::SLL.spec_value()),
    {
        Self::make_special(
            SpecialOpcode::SLL,
            sa,
            rd.raw_value(),
            rs.raw_value(),
            rt.raw_value(),
        )
    }

    pub fn make_nop() -> (r: u32)
        ensures
            r == 0,
    {
        Self::make_sll(GPR::R0, GPR::R0, U5::new(0))
    }

    pub fn make_srl(rd: GPR, rt: GPR, sa: U5) -> (r: u32)
        ensures
            r == rtype(0, rt.id(), rd.id(), sa@, SpecialOpcode::SRL.spec_value()),
    {
        Self::make_srl_with_extras(rd, rt, GPR::R0, sa)
    }

    pub fn make_srl_with_extras(rd: GPR, rt: GPR, rs: GPR, sa: U5) -> (r: u32)
        ensures
            r == rtype(rs.id(), rt.id(), rd.id(), sa@, SpecialOpcode::SRL.spec_value()),
    {
        Self::make_special(
            SpecialOpcode::SRL,
            sa,
            rd.raw_value(),
            rs.raw_value(),
            rt.raw_value(),
        )
    }

    pub fn make_sra(rd: GPR, rt: GPR, sa: U5) -> (r: u32)
        ensures
            r == rtype(0, rt.id(), rd.id(), sa@, SpecialOpcode::SRA.spec_value()),
    {
        Self::make_sra_with_extras(rd, rt, GPR::R0, sa)
    }

    pub fn make_sra_with_extras(rd: GPR, rt: GPR, rs: GPR, sa: U5) -> (r: u32)
        ensures
            r == rtype(rs.id(), rt.id(), rd.id(), sa@, SpecialOpcode::SRA.spec_value()),
    {
        Self::make_special(
            SpecialOpcode::SRA,
            sa,
            rd.raw_value(),
            rs.raw_value(),
            rt.raw_value(),
        )
    }

    pub fn make_dsll(rd: GPR, rt: GPR, sa: U5) -> (r: u32)
        ensures
            r == rtype(0, rt.id(), rd.id(), sa@, SpecialOpcode::DSLL.spec_value()),
    {
        Self::make_dsll_with_extras(rd, rt, GPR::R0, sa)
    }

    pub fn make_dsll_with_extras(rd: GPR, rt: GPR, rs: GPR, sa: U5) -> (r: u32)
        ensures
            r == rtype(rs.id(), rt.id(), rd.id(), sa@, SpecialOpcode::DSLL.spec_value()),
    {
        Self::make_special(
            SpecialOpcode::DSLL,
            sa,
            rd.raw_value(),
            rs.raw_value(),
            rt.raw_value(),
        )
    }

    pub fn make_dsrl(rd: GPR, rt: GPR, sa: U5) -> (r: u32)
        ensures
            r == rtype(0, rt.id(), rd.id(), sa@, SpecialOpcode::DSRL.spec_value()),
    {
        Self::make_dsrl_with_extras(rd, rt, GPR::R0, sa)
    }

    pub fn make_dsrl_with_extras(rd: GPR, rt: GPR, rs: GPR, sa: U5) -> (r: u32)
        ensures
            r == rtype(rs.id(), rt.id(), rd.id(), sa@, SpecialOpcode::DSRL.spec_value()),
    {
        Self::make_special(
            SpecialOpcode::DSRL,
            sa,
            rd.raw_value(),
            rs.raw_value(),
            rt.raw_value(),
        )
    }

    pub fn make_dsra(rd: GPR, rt: GPR, sa: U5) -> (r: u32)
        ensures
            r == rtype(0, rt.id(), rd.id(), sa@, SpecialOpcode::DSRA.spec_value()),
    {
        Self::make_dsra_with_extras(rd, rt, GPR::R0, sa)
    }

    pub fn make_dsra_with_extras(rd: GPR, rt: GPR, rs: GPR, sa: U5) -> (r: u32)
        ensures
            r == rtype(rs.id(), rt.id(), rd.id(), sa@, SpecialOpcode::DSRA.spec_value()),
    {
        Self::make_special(
            SpecialOpcode::DSRA,
            sa,
            rd.raw_value(),
            rs.raw_value(),
            rt.raw_value(),
        )
    }

    pub fn make_dsll32(rd: GPR, rt: GPR, sa: U5) -> (r: u32)
        ensures
            r == rtype(0, rt.id(), rd.id(), sa@, SpecialOpcode::DSLL32.spec_value()),
    {
        Self::make_dsll32_with_extras(rd, rt, GPR::R0, sa)
    }

    pub fn make_dsll32_with_extras(rd: GPR, rt: GPR, rs: GPR, sa: U5) -> (r: u32)
        ensures
            r == rtype(rs.id(), rt.id(), rd.id(), sa@, SpecialOpcode::DSLL32.spec_value()),
    {
        Self::make_special(
            SpecialOpcode::DSLL32,
            sa,
            rd.raw_value(),
            rs.raw_value(),
            rt.raw_value(),
        )
    }

    pub fn make_dsrl32(rd: GPR, rt: GPR, sa: U5) -> (r: u32)
        ensures
            r == rtype(0, rt.id(), rd.id(), sa@, SpecialOpcode::DSRL32.spec_value()),
    {
        Self::make_dsrl32_with_extras(rd, rt, GPR::R0, sa)
    }

    pub fn make_dsrl32_with_extras(rd: GPR, rt: GPR, rs: GPR, sa: U5) -> (r: u32)
        ensures
            r == rtype(rs.id(), rt.id(), rd.id(), sa@, SpecialOpcode::DSRL32.spec_value()),
    {
        Self::make_special(
            SpecialOpcode::DSRL32,
            sa,
            rd.raw_value(),
            rs.raw_value(),
            rt.raw_value(),
        )
    }

    pub fn make_dsra32(rd: GPR, rt: GPR, sa: U5) -> (r: u32)
        ensures
            r == rtype(0, rt.id(), rd.id(), sa@, SpecialOpcode::DSRA32.spec_value()),
    {
        Self::make_dsra32_with_extras(rd, rt, GPR::R0, sa)
    }

    pub fn make_dsra32_with_extras(rd: GPR, rt: GPR, rs: GPR, sa: U5) -> (r: u32)
        ensures
            r == rtype(rs.id(), rt.id(), rd.id(), sa@, SpecialOpcode::DSRA32.spec_value()),
    {
        Self::make_special(
            SpecialOpcode::DSRA32,
            sa,
            rd.raw_value(),
            rs.raw_value(),
            rt.raw_value(),
        )
    }

    pub fn make_sllv(rd: GPR, rt: GPR, rs: GPR) -> (r: u32)
        ensures
            r == rtype(rs.id(), rt.id(), rd.id(), 0, SpecialOpcode::SLLV.spec_value()),
    {
        Self::make_special(
            SpecialOpcode::SLLV,
            U5::new(0),
            rd.raw_value(),
            rs.raw_value(),
            rt.raw_value(),
        )
    }

    pub fn make_srlv(rd: GPR, rt: GPR, rs: GPR) -> (r: u32)
        ensures
            r == rtype(rs.id(), rt.id(), rd.id(), 0, SpecialOpcode::SRLV.spec_value()),
    {
        Self::make_special(
            SpecialOpcode::SRLV,
            U5::new(0),
            rd.raw_value(),
            rs.raw_value(),
            rt.raw_value(),
        )
    }

    pub fn make_srav(rd: GPR, rt: GPR, rs: GPR) -> (r: u32)
        ensures
            r == rtype(rs.id(), rt.id(), rd.id(), 0, SpecialOpcode::SRAV.spec_value()),
    {
        Self::make_special(
            SpecialOpcode::SRAV,
            U5::new(0),
            rd.raw_value(),
            rs.raw_value(),
            rt.raw_value(),
        )
    }

    pub fn make_dsllv(rd: GPR, rt: GPR, rs: GPR) -> (r: u32)
        ensures
            r == rtype(rs.id(), rt.id(), rd.id(), 0, SpecialOpcode::DSLLV.spec_value()),
    {
        Self::make_special(
            SpecialOpcode::DSLLV,
            U5::new(0),
            rd.raw_value(),
            rs.raw_value(),
            rt.raw_value(),
        )
    }

    pub fn make_dsrlv(rd: GPR, rt: GPR, rs: GPR) -> (r: u32)
        ensures
            r == rtype(rs.id(), rt.id(), rd.id(), 0, SpecialOpcode::DSRLV.spec_value()),
    {
        Self::make_special(
            SpecialOpcode::DSRLV,
            U5::new(0),
            rd.raw_value(),
            rs.raw_value(),
            rt.raw_value(),
        )
    }

    pub fn make_dsrav(rd: GPR, rt: GPR, rs: GPR) -> (r: u32)
        ensures
            r == rtype(rs.id(), rt.id(), rd.id(), 0, SpecialOpcode::DSRAV.spec_value()),
    {
        Self::make_special(
            SpecialOpcode::DSRAV,
            U5::new(0),
            rd.raw_value(),
            rs.raw_value(),
            rt.raw_value(),
        )
    }

    pub fn make_div(rt: GPR, rs: GPR) -> (r: u32)
        ensures
            r == rtype(rs.id(), rt.id(), 0, 0, SpecialOpcode::DIV.spec_value()),
    {
        Self::make_special(
            SpecialOpcode::DIV,
            U5::new(0),
            U5::new(0),
            rs.raw_value(),
            rt.raw_value(),
        )
    }

    pub fn make_divu(rt: GPR, rs: GPR) -> (r: u32)
        ensures
            r == rtype(rs.id(), rt.id(), 0, 0, SpecialOpcode::DIVU.spec_value()),
    {
        Self::make_special(
            SpecialOpcode::DIVU,
            U5::new(0),
            U5::new(0),
            rs.raw_value(),
            rt.raw_value(),
        )
    }

    pub fn make_ddiv(rt: GPR, rs: GPR) -> (r: u32)
        ensures
            r == rtype(rs.id(), rt.id(), 0, 0, SpecialOpcode::DDIV.spec_value()),
    {
        Self::make_special(
            SpecialOpcode::DDIV,
            U5::new(0),
            U5::new(0),
            rs.raw_value(),
            rt.raw_value(),
        )
    }

    pub fn make_ddivu(rt: GPR, rs: GPR) -> (r: u32)
        ensures
            r == rtype(rs.id(), rt.id(), 0, 0, SpecialOpcode::DDIVU.spec_value()),
    {
        Self::make_special(
            SpecialOpcode::DDIVU,
            U5::new(0),
            U5::new(0),
            rs.raw_value(),
            rt.raw_value(),
        )
    }

    pub fn make_mult(rt: GPR, rs: GPR) -> (r: u32)
        ensures
            r == rtype(rs.id(), rt.id(), 0, 0, SpecialOpcode::MULT.spec_value()),
    {
        Self::make_special(
            SpecialOpcode::MULT,
            U5::new(0),
            U5::new(0),
            rs.raw_value(),
            rt.raw_value(),
        )
    }

    pub fn make_multu(rt: GPR, rs: GPR) -> (r: u32)
        ensures
            r == rtype(rs.id(), rt.id(), 0, 0, SpecialOpcode::MULTU.spec_value()),
    {
        Self::make_special(
            SpecialOpcode::MULTU,
            U5::new(0),
            U5::new(0),
            rs.raw_value(),
            rt.raw_value(),
        )
    }

    pub fn make_dmult(rt: GPR, rs: GPR) -> (r: u32)
        ensures
            r == rtype(rs.id(), rt.id(), 0, 0, SpecialOpcode::DMULT.spec_value()),
    {
        Self::make_special(
            SpecialOpcode::DMULT,
            U5::new(0),
            U5::new(0),
            rs.raw_value(),
            rt.raw_value(),
        )
    }

    pub fn make_dmultu(rt: GPR, rs: GPR) -> (r: u32)
        ensures
            r == rtype(rs.id(), rt.id(), 0, 0, SpecialOpcode::DMULTU.spec_value()),
    {
        Self::make_special(
            SpecialOpcode::DMULTU,
            U5::new(0),
            U5::new(0),
            rs.raw_value(),
            rt.raw_value(),
        )
    }

    pub fn make_mflo(rd: GPR) -> (r: u32)
        ensures
            r == rtype(0, 0, rd.id(), 0, SpecialOpcode::MFLO.spec_value()),
    {
        Self::make_mflo_with_extras(rd, GPR::R0, GPR::R0)
    }

    pub fn make_mflo_with_extras(rd: GPR, rs: GPR, rt: GPR) -> (r: u32)
        ensures
            r == rtype(rs.id(), rt.id(), rd.id(), 0, SpecialOpcode::MFLO.spec_value()),
    {
        Self::make_special(
            SpecialOpcode::MFLO,
            U5::new(0),
            rd.raw_value(),
            rs.raw_value(),
            rt.raw_value(),
        )
    }

    pub fn make_mtlo(rs: GPR) -> (r: u32)
        ensures
            r == rtype(rs.id(), 0, 0, 0, SpecialOpcode::MTLO.spec_value()),
    {
        Self::make_mtlo_with_extras(GPR::R0, rs, GPR::R0)
    }

    pub fn make_mtlo_with_extras(rd: GPR, rs: GPR, rt: GPR) -> (r: u32)
        ensures
            r == rtype(rs.id(), rt.id(), rd.id(), 0, SpecialOpcode::MTLO.spec_value()),
    {
        Self::make_special(
            SpecialOpcode::MTLO,
            U5::new(0),
            rd.raw_value(),
            rs.raw_value(),
            rt.raw_value(),
        )
    }

    pub fn make_mfhi(rd: GPR) -> (r: u32)
        ensures
            r == rtype(0, 0, rd.id(), 0, SpecialOpcode::MFHI.spec_value()),
    {
        Self::make_mfhi_with_extras(rd, GPR::R0, GPR::R0)
    }

    pub fn make_mfhi_with_extras(rd: GPR, rs: GPR, rt: GPR) -> (r: u32)
        ensures
            r == rtype(rs.id(), rt.id(), rd.id(), 0, SpecialOpcode::MFHI.spec_value()),
    {
        Self::make_special(
            SpecialOpcode::MFHI,
            U5::new(0),
            rd.raw_value(),
            rs.raw_value(),
            rt.raw_value(),
        )
    }

    pub fn make_mthi(rs: GPR) -> (r: u32)
        ensures
            r == rtype(rs.id(), 0, 0, 0, SpecialOpcode::MTHI.spec_value()),
    {
        Self::make_mthi_with_extras(GPR::R0, rs, GPR::R0)
    }

    pub fn make_mthi_with_extras(rd: GPR, rs: GPR, rt: GPR) -> (r: u32)
        ensures
            r == rtype(rs.id(), rt.id(), rd.id(), 0, SpecialOpcode::MTHI.spec_value()),
    {
        Self::make_special(
            SpecialOpcode::MTHI,
            U5::new(0),
            rd.raw_value(),
            rs.raw_value(),
            rt.raw_value(),
        )
    }

    pub fn make_sync() -> (r: u32)
        ensures
            r == rtype(0, 0, 0, 0, SpecialOpcode::SYNC.spec_value()),
    {
        Self::make_sync_with_extras(GPR::R0, GPR::R0, GPR::R0, U5::new(0))
    }

    pub fn make_sync_with_extras(rd: GPR, rs: GPR, rt: GPR, sa: U5) -> (r: u32)
        ensures
            r == rtype(rs.id(), rt.id(), rd.id(), sa@, SpecialOpcode::SYNC.spec_value()),
    {
        Self::make_special(
            SpecialOpcode::SYNC,
            sa,
            rd.raw_value(),
            rs.raw_value(),
            rt.raw_value(),
        )
    }

    pub fn make_break() -> (r: u32)
        ensures
            r == rtype(0, 0, 0, 0, SpecialOpcode::BREAK.spec_value()),
    {
        Self::make_break_with_extras(GPR::R0, GPR::R0, GPR::R0, U5::new(0))
    }

    pub fn make_break_with_extras(rd: GPR, rs: GPR, rt: GPR, sa: U5) -> (r: u32)
        ensures
            r == rtype(rs.id(), rt.id(), rd.id(), sa@, SpecialOpcode::BREAK.spec_value()),
    {
        Self::make_special(
            SpecialOpcode::BREAK,
            sa,
            rd.raw_value(),
            rs.raw_value(),
            rt.raw_value(),
        )
    }

    pub fn make_syscall() -> (r: u32)
        ensures
            r == rtype(0, 0, 0, 0, SpecialOpcode::SYSCALL.spec_value()),
    {
        Self::make_syscall_with_extras(GPR::R0, GPR::R0, GPR::R0, U5::new(0))
    }

    pub fn make_syscall_with_extras(rd: GPR, rs: GPR, rt: GPR, sa: U5) -> (r: u32)
        ensures
            r == rtype(rs.id(), rt.id(), rd.id(), sa@, SpecialOpcode::SYSCALL.spec_value()),
    {
        Self::make_special(
            SpecialOpcode::SYSCALL,
            sa,
            rd.raw_value(),
            rs.raw_value(),
            rt.raw_value(),
        )
    }

    pub fn make_bgezal(rs: GPR, offset_as_instruction_count: i16) -> (r: u32)
        ensures
            r == regimm_word(rs.id(), RegimmOpcode::BGEZAL.spec_value(), offset_as_instruction_count as u16),
    {
        Self::make_regimm(RegimmOpcode::BGEZAL, rs, offset_as_instruction_count as u16)
    }

    pub fn make_cop0_tlbr() -> (r: u32)
        ensures
            r == (0x4000_0000 + 16 * 0x20_0000 + Cop0TLBInstruction::TLBR.spec_value()) as u32,
    {
        Self::make_cop0tlbinstruction(Cop0TLBInstruction::TLBR)
    }

    pub fn make_cop0_tlbp() -> (r: u32)
        ensures
            r == (0x4000_0000 + 16 * 0x20_0000 + Cop0TLBInstruction::TLBP.spec_value()) as u32,
    {
        Self::make_cop0tlbinstruction(Cop0TLBInstruction::TLBP)
    }

    pub fn make_cop0_tlbwi() -> (r: u32)
        ensures
            r == (0x4000_0000 + 16 * 0x20_0000 + Cop0TLBInstruction::TLBWI.spec_value()) as u32,
    {
        Self::make_cop0tlbinstruction(Cop0TLBInstruction::TLBWI)
    }

    pub fn make_cop0_tlbwr() -> (r: u32)
        ensures
            r == (0x4000_0000 + 16 * 0x20_0000 + Cop0TLBInstruction::TLBWR.spec_value()) as u32,
    {
        Self::make_cop0tlbinstruction(Cop0TLBInstruction::TLBWR)
    }

    pub fn make_cfc1(rt: GPR, rd: U5) -> (r: u32)
        ensures
            r == cop_word(17, Cop1Opcode::CFC1.spec_value(), rt.id(), rd@),
    {
        Self::make_cop1instruction(Cop1Opcode::CFC1, rt.raw_value(), rd)
    }

    pub fn make_dcfc1(rt: GPR, rd: U5) -> (r: u32)
        ensures
            r == cop_word(17, Cop1Opcode::_DCFC1.spec_value(), rt.id(), rd@),
    {
        Self::make_cop1instruction(Cop1Opcode::_DCFC1, rt.raw_value(), rd)
    }

    pub fn make_ctc1(rt: GPR, rd: U5) -> (r: u32)
        ensures
            r == cop_word(17, Cop1Opcode::CTC1.spec_value(), rt.id(), rd@),
    {
        Self::make_cop1instruction(Cop1Opcode::CTC1, rt.raw_value(), rd)
    }

    pub fn make_dctc1(rt: GPR, rd: U5) -> (r: u32)
        ensures
            r == cop_word(17, Cop1Opcode::_DCTC1.spec_value(), rt.id(), rd@),
    {
        Self::make_cop1instruction(Cop1Opcode::_DCTC1, rt.raw_value(), rd)
    }

    pub fn make_cop1_abs(fd: FR, fs: FR) -> (r: FPUFloatInstruction)
        ensures
            r@ == float_word(Cop1FloatInstruction::ABS.spec_value(), fd.id(), fs.id(), 0),
    {
        Self::make_cop1_abs_with_ft(fd, fs, FR::F0)
    }

    pub fn make_cop1_abs_with_ft(fd: FR, fs: FR, ft: FR) -> (r: FPUFloatInstruction)
        ensures
            r@ == float_word(Cop1FloatInstruction::ABS.spec_value(), fd.id(), fs.id(), ft.id()),
    {
        Self::make_cop1_float_instruction(Cop1FloatInstruction::ABS, fd, fs, ft)
    }

    pub fn make_cop1_add(fd: FR, fs: FR, ft: FR) -> (r: FPUFloatInstruction)
        ensures
            r@ == float_word(Cop1FloatInstruction::ADD.spec_value(), fd.id(), fs.id(), ft.id()),
    {
        Self::make_cop1_float_instruction(Cop1FloatInstruction::ADD, fd, fs, ft)
    }

    pub fn make_cop1_cvt_d(fd: FR, fs: FR) -> (r: FPUFloatInstruction)
        ensures
            r@ == float_word(Cop1FloatInstruction::CVT_D.spec_value(), fd.id(), fs.id(), 0),
    {
        Self::make_cop1_cvt_d_with_ft(fd, fs, FR::F0)
    }

    pub fn make_cop1_cvt_d_with_ft(fd: FR, fs: FR, ft: FR) -> (r: FPUFloatInstruction)
        ensures
            r@ == float_word(Cop1FloatInstruction::CVT_D.spec_value(), fd.id(), fs.id(), ft.id()),
    {
        Self::make_cop1_float_instruction(Cop1FloatInstruction::CVT_D, fd, fs, ft)
    }

    pub fn make_cop1_cvt_l(fd: FR, fs: FR) -> (r: FPUFloatInstruction)
        ensures
            r@ == float_word(Cop1FloatInstruction::CVT_L.spec_value(), fd.id(), fs.id(), 0),
    {
        Self::make_cop1_cvt_l_with_ft(fd, fs, FR::F0)
    }

    pub fn make_cop1_cvt_l_with_ft(fd: FR, fs: FR, ft: FR) -> (r: FPUFloatInstruction)
        ensures
            r@ == float_word(Cop1FloatInstruction::CVT_L.spec_value(), fd.id(), fs.id(), ft.id()),
    {
        Self::make_cop1_float_instruction(Cop1FloatInstruction::CVT_L, fd, fs, ft)
    }

    pub fn make_cop1_cvt_s(fd: FR, fs: FR) -> (r: FPUFloatInstruction)
        ensures
            r@ == float_word(Cop1FloatInstruction::CVT_S.spec_value(), fd.id(), fs.id(), 0),
    {
        Self::make_cop1_cvt_s_with_ft(fd, fs, FR::F0)
    }

    pub fn make_cop1_cvt_s_with_ft(fd: FR, fs: FR, ft: FR) -> (r: FPUFloatInstruction)
        ensures
            r@ == float_word(Cop1FloatInstruction::CVT_S.spec_value(), fd.id(), fs.id(), ft.id()),
    {
        Self::make_cop1_float_instruction(Cop1FloatInstruction::CVT_S, fd, fs, ft)
    }

    pub fn make_cop1_cvt_w(fd: FR, fs: FR) -> (r: FPUFloatInstruction)
        ensures
            r@ == float_word(Cop1FloatInstruction::CVT_W.spec_value(), fd.id(), fs.id(), 0),
    {
        Self::make_cop1_cvt_w_with_ft(fd, fs, FR::F0)
    }

    pub fn make_cop1_cvt_w_with_ft(fd: FR, fs: FR, ft: FR) -> (r: FPUFloatInstruction)
        ensures
            r@ == float_word(Cop1FloatInstruction::CVT_W.spec_value(), fd.id(), fs.id(), ft.id()),
    {
        Self::make_cop1_float_instruction(Cop1FloatInstruction::CVT_W, fd, fs, ft)
    }

    pub fn make_cop1_round_w(fd: FR, fs: FR) -> (r: FPUFloatInstruction)
        ensures
            r@ == float_word(Cop1FloatInstruction::ROUND_W.spec_value(), fd.id(), fs.id(), 0),
    {
        Self::make_cop1_float_instruction(Cop1FloatInstruction::ROUND_W, fd, fs, FR::F0)
    }

    pub fn make_cop1_round_l(fd: FR, fs: FR) -> (r: FPUFloatInstruction)
        ensures
            r@ == float_word(Cop1FloatInstruction::ROUND_L.spec_value(), fd.id(), fs.id(), 0),
    {
        Self::make_cop1_float_instruction(Cop1FloatInstruction::ROUND_L, fd, fs, FR::F0)
    }

    pub fn make_cop1_trunc_w(fd: FR, fs: FR) -> (r: FPUFloatInstruction)
        ensures
            r@ == float_word(Cop1FloatInstruction::TRUNC_W.spec_value(), fd.id(), fs.id(), 0),
    {
        Self::make_cop1_float_instruction(Cop1FloatInstruction::TRUNC_W, fd, fs, FR::F0)
    }

    pub fn make_cop1_trunc_l(fd: FR, fs: FR) -> (r: FPUFloatInstruction)
        ensures
            r@ == float_word(Cop1FloatInstruction::TRUNC_L.spec_value(), fd.id(), fs.id(), 0),
    {
        Self::make_cop1_float_instruction(Cop1FloatInstruction::TRUNC_L, fd, fs, FR::F0)
    }

    pub fn make_cop1_floor_w(fd: FR, fs: FR) -> (r: FPUFloatInstruction)
        ensures
            r@ == float_word(Cop1FloatInstruction::FLOOR_W.spec_value(), fd.id(), fs.id(), 0),
    {
        Self::make_cop1_float_instruction(Cop1FloatInstruction::FLOOR_W, fd, fs, FR::F0)
    }

    pub fn make_cop1_floor_l(fd: FR, fs: FR) -> (r: FPUFloatInstruction)
        ensures
            r@ == float_word(Cop1FloatInstruction::FLOOR_L.spec_value(), fd.id(), fs.id(), 0),
    {
        Self::make_cop1_float_instruction(Cop1FloatInstruction::FLOOR_L, fd, fs, FR::F0)
    }

    pub fn make_cop1_ceil_w(fd: FR, fs: FR) -> (r: FPUFloatInstruction)
        ensures
            r@ == float_word(Cop1FloatInstruction::CEIL_W.spec_value(), fd.id(), fs.id(), 0),
    {
        Self::make_cop1_float_instruction(Cop1FloatInstruction::CEIL_W, fd, fs, FR::F0)
    }

    pub fn make_cop1_ceil_l(fd: FR, fs: FR) -> (r: FPUFloatInstruction)
        ensures
            r@ == float_word(Cop1FloatInstruction::CEIL_L.spec_value(), fd.id(), fs.id(), 0),
    {
        Self::make_cop1_float_instruction(Cop1FloatInstruction::CEIL_L, fd, fs, FR::F0)
    }

    pub fn make_cop1_div(fd: FR, fs: FR, ft: FR) -> (r: FPUFloatInstruction)
        ensures
            r@ == float_word(Cop1FloatInstruction::DIV.spec_value(), fd.id(), fs.id(), ft.id()),
    {
        Self::make_cop1_float_instruction(Cop1FloatInstruction::DIV, fd, fs, ft)
    }

    pub fn make_cop1_mov(fd: FR, fs: FR) -> (r: FPUFloatInstruction)
        ensures
            r@ == float_word(Cop1FloatInstruction::MOV.spec_value(), fd.id(), fs.id(), 0),
    {
        Self::make_cop1_mov_with_ft(fd, fs, FR::F0)
    }

    pub fn make_cop1_mov_with_ft(fd: FR, fs: FR, ft: FR) -> (r: FPUFloatInstruction)
        ensures
            r@ == float_word(Cop1FloatInstruction::MOV.spec_value(), fd.id(), fs.id(), ft.id()),
    {
        Self::make_cop1_float_instruction(Cop1FloatInstruction::MOV, fd, fs, ft)
    }

    pub fn make_cop1_mul(fd: FR, fs: FR, ft: FR) -> (r: FPUFloatInstruction)
        ensures
            r@ == float_word(Cop1FloatInstruction::MUL.spec_value(), fd.id(), fs.id(), ft.id()),
    {
        Self::make_cop1_float_instruction(Cop1FloatInstruction::MUL, fd, fs, ft)
    }

    pub fn make_cop1_neg(fd: FR, fs: FR) -> (r: FPUFloatInstruction)
        ensures
            r@ == float_word(Cop1FloatInstruction::NEG.spec_value(), fd.id(), fs.id(), 0),
    {
        Self::make_cop1_neg_with_ft(fd, fs, FR::F0)
    }

    pub fn make_cop1_neg_with_ft(fd: FR, fs: FR, ft: FR) -> (r: FPUFloatInstruction)
        ensures
            r@ == float_word(Cop1FloatInstruction::NEG.spec_value(), fd.id(), fs.id(), ft.id()),
    {
        Self::make_cop1_float_instruction(Cop1FloatInstruction::NEG, fd, fs, ft)
    }

    pub fn make_cop1_sqrt(fd: FR, fs: FR) -> (r: FPUFloatInstruction)
        ensures
            r@ == float_word(Cop1FloatInstruction::SQRT.spec_value(), fd.id(), fs.id(), 0),
    {
        Self::make_cop1_sqrt_with_ft(fd, fs, FR::F0)
    }

    pub fn make_cop1_sqrt_with_ft(fd: FR, fs: FR, ft: FR) -> (r: FPUFloatInstruction)
        ensures
            r@ == float_word(Cop1FloatInstruction::SQRT.spec_value(), fd.id(), fs.id(), ft.id()),
    {
        Self::make_cop1_float_instruction(Cop1FloatInstruction::SQRT, fd, fs, ft)
    }

    pub fn make_cop1_sub(fd: FR, fs: FR, ft: FR) -> (r: FPUFloatInstruction)
        ensures
            r@ == float_word(Cop1FloatInstruction::SUB.spec_value(), fd.id(), fs.id(), ft.id()),
    {
        Self::make_cop1_float_instruction(Cop1FloatInstruction::SUB, fd, fs, ft)
    }

    pub fn make_sd(rt: GPR, offset: i16, base: GPR) -> (r: u32)
        ensures
            r == itype(Opcode::SD.spec_value(), base.id(), rt.id(), offset as u16),
    {
        Self::make_main_immediate(Opcode::SD, rt, base, offset as u16)
    }

    pub fn make_scd(rt: GPR, offset: i16, base: GPR) -> (r: u32)
        ensures
            r == itype(Opcode::SCD.spec_value(), base.id(), rt.id(), offset as u16),
    {
        Self::make_main_immediate(Opcode::SCD, rt, base, offset as u16)
    }

    pub fn make_sdl(rt: GPR, offset: i16, base: GPR) -> (r: u32)
        ensures
            r == itype(Opcode::SDL.spec_value(), base.id(), rt.id(), offset as u16),
    {
        Self::make_main_immediate(Opcode::SDL, rt, base, offset as u16)
    }

    pub fn make_sdr(rt: GPR, offset: i16, base: GPR) -> (r: u32)
        ensures
            r == itype(Opcode::SDR.spec_value(), base.id(), rt.id(), offset as u16),
    {
        Self::make_main_immediate(Opcode::SDR, rt, base, offset as u16)
    }

    pub fn make_sw(rt: GPR, offset: i16, base: GPR) -> (r: u32)
        ensures
            r == itype(Opcode::SW.spec_value(), base.id(), rt.id(), offset as u16),
    {
        Self::make_main_immediate(Opcode::SW, rt, base, offset as u16)
    }

    pub fn make_sc(rt: GPR, offset: i16, base: GPR) -> (r: u32)
        ensures
            r == itype(Opcode::SC.spec_value(), base.id(), rt.id(), offset as u16),
    {
        Self::make_main_immediate(Opcode::SC, rt, base, offset as u16)
    }

    pub fn make_swl(rt: GPR, offset: i16, base: GPR) -> (r: u32)
        ensures
            r == itype(Opcode::SWL.spec_value(), base.id(), rt.id(), offset as u16),
    {
        Self::make_main_immediate(Opcode::SWL, rt, base, offset as u16)
    }

    pub fn make_swr(rt: GPR, offset: i16, base: GPR) -> (r: u32)
        ensures
            r == itype(Opcode::SWR.spec_value(), base.id(), rt.id(), offset as u16),
    {
        Self::make_main_immediate(Opcode::SWR, rt, base, offset as u16)
    }

    pub fn make_sh(rt: GPR, offset: i16, base: GPR) -> (r: u32)
        ensures
            r == itype(Opcode::SH.spec_value(), base.id(), rt.id(), offset as u16),
    {
        Self::make_main_immediate(Opcode::SH, rt, base, offset as u16)
    }

    pub fn make_sb(rt: GPR, offset: i16, base: GPR) -> (r: u32)
        ensures
            r == itype(Opcode::SB.spec_value(), base.id(), rt.id(), offset as u16),
    {
        Self::make_main_immediate(Opcode::SB, rt, base, offset as u16)
    }

    pub fn make_lb(rt: GPR, offset: i16, base: GPR) -> (r: u32)
        ensures
            r == itype(Opcode::LB.spec_value(), base.id(), rt.id(), offset as u16),
    {
        Self::make_main_immediate(Opcode::LB, rt, base, offset as u16)
    }

    pub fn make_lbu(rt: GPR, offset: i16, base: GPR) -> (r: u32)
        ensures
            r == itype(Opcode::LBU.spec_value(), base.id(), rt.id(), offset as u16),
    {
        Self::make_main_immediate(Opcode::LBU, rt, base, offset as u16)
    }

    pub fn make_lh(rt: GPR, offset: i16, base: GPR) -> (r: u32)
        ensures
            r == itype(Opcode::LH.spec_value(), base.id(), rt.id(), offset as u16),
    {
        Self::make_main_immediate(Opcode::LH, rt, base, offset as u16)
    }

    pub fn make_lhu(rt: GPR, offset: i16, base: GPR) -> (r: u32)
        ensures
            r == itype(Opcode::LHU.spec_value(), base.id(), rt.id(), offset as u16),
    {
        Self::make_main_immediate(Opcode::LHU, rt, base, offset as u16)
    }

    pub fn make_lw(rt: GPR, offset: i16, base: GPR) -> (r: u32)
        ensures
            r == itype(Opcode::LW.spec_value(), base.id(), rt.id(), offset as u16),
    {
        Self::make_main_immediate(Opcode::LW, rt, base, offset as u16)
    }

    pub fn make_lwl(rt: GPR, offset: i16, base: GPR) -> (r: u32)
        ensures
            r == itype(Opcode::LWL.spec_value(), base.id(), rt.id(), offset as u16),
    {
        Self::make_main_immediate(Opcode::LWL, rt, base, offset as u16)
    }

    pub fn make_lwr(rt: GPR, offset: i16, base: GPR) -> (r: u32)
        ensures
            r == itype(Opcode::LWR.spec_value(), base.id(), rt.id(), offset as u16),
    {
        Self::make_main_immediate(Opcode::LWR, rt, base, offset as u16)
    }

    pub fn make_ldl(rt: GPR, offset: i16, base: GPR) -> (r: u32)
        ensures
            r == itype(Opcode::LDL.spec_value(), base.id(), rt.id(), offset as u16),
    {
        Self::make_main_immediate(Opcode::LDL, rt, base, offset as u16)
    }

    pub fn make_ldr(rt: GPR, offset: i16, base: GPR) -> (r: u32)
        ensures
            r == itype(Opcode::LDR.spec_value(), base.id(), rt.id(), offset as u16),
    {
        Self::make_main_immediate(Opcode::LDR, rt, base, offset as u16)
    }

    pub fn make_ll(rt: GPR, offset: i16, base: GPR) -> (r: u32)
        ensures
            r == itype(Opcode::LL.spec_value(), base.id(), rt.id(), offset as u16),
    {
        Self::make_main_immediate(Opcode::LL, rt, base, offset as u16)
    }

    pub fn make_lld(rt: GPR, offset: i16, base: GPR) -> (r: u32)
        ensures
            r == itype(Opcode::LLD.spec_value(), base.id(), rt.id(), offset as u16),
    {
        Self::make_main_immediate(Opcode::LLD, rt, base, offset as u16)
    }

    pub fn make_lwu(rt: GPR, offset: i16, base: GPR) -> (r: u32)
        ensures
            r == itype(Opcode::LWU.spec_value(), base.id(), rt.id(), offset as u16),
    {
        Self::make_main_immediate(Opcode::LWU, rt, base, offset as u16)
    }

    pub fn make_ld(rt: GPR, offset: i16, base: GPR) -> (r: u32)
        ensures
            r == itype(Opcode::LD.spec_value(), base.id(), rt.id(), offset as u16),
    {
        Self::make_main_immediate(Opcode::LD, rt, base, offset as u16)
    }

    /// `op` is the 5-bit cache operation code (rt field).
    pub fn make_cache(op: U5, offset: i16, base: GPR) -> (r: u32)
        ensures
            r == itype(Opcode::CACHE.spec_value(), base.id(), op@, offset as u16),
    {
        Self::make_main_immediate(Opcode::CACHE, GPR::new_with_raw_value(op), base, offset as u16)
    }

    /// `rd` is the 5-bit COP0 register index.
    pub fn make_mfc0(rt: GPR, rd: U5) -> (r: u32)
        ensures
            r == cop_word(16, Cop0Opcode::MFC0.spec_value(), rt.id(), rd@),
    {
        Self::make_cop0instruction(Cop0Opcode::MFC0, rt.raw_value(), rd)
    }

    /// `rd` is the 5-bit COP0 register index.
    pub fn make_dmfc0(rt: GPR, rd: U5) -> (r: u32)
        ensures
            r == cop_word(16, Cop0Opcode::DMFC0.spec_value(), rt.id(), rd@),
    {
        Self::make_cop0instruction(Cop0Opcode::DMFC0, rt.raw_value(), rd)
    }

    /// `rd` is the 5-bit COP0 register index.
    pub fn make_mtc0(rt: GPR, rd: U5) -> (r: u32)
        ensures
            r == cop_word(16, Cop0Opcode::MTC0.spec_value(), rt.id(), rd@),
    {
        Self::make_cop0instruction(Cop0Opcode::MTC0, rt.raw_value(), rd)
    }

    /// `rd` is the 5-bit COP0 register index.
    pub fn make_dmtc0(rt: GPR, rd: U5) -> (r: u32)
        ensures
            r == cop_word(16, Cop0Opcode::DMTC0.spec_value(), rt.id(), rd@),
    {
        Self::make_cop0instruction(Cop0Opcode::DMTC0, rt.raw_value(), rd)
    }

    pub fn make_lwc1(rt: FR, offset: i16, base: GPR) -> (r: u32)
        ensures
            r == itype(Opcode::LWC1.spec_value(), base.id(), rt.id(), offset as u16),
    {
        Self::make_main_immediate(
            Opcode::LWC1,
            GPR::new_with_raw_value(rt.raw_value()),
            base,
            offset as u16,
        )
    }

    pub fn make_ldc1(rt: FR, offset: i16, base: GPR) -> (r: u32)
        ensures
            r == itype(Opcode::LDC1.spec_value(), base.id(), rt.id(), offset as u16),
    {
        Self::make_main_immediate(
            Opcode::LDC1,
            GPR::new_with_raw_value(rt.raw_value()),
            base,
            offset as u16,
        )
    }

    pub fn make_swc1(rt: FR, offset: i16, base: GPR) -> (r: u32)
        ensures
            r == itype(Opcode::SWC1.spec_value(), base.id(), rt.id(), offset as u16),
    {
        Self::make_main_immediate(
            Opcode::SWC1,
            GPR::new_with_raw_value(rt.raw_value()),
            base,
            offset as u16,
        )
    }

    pub fn make_sdc1(rt: FR, offset: i16, base: GPR) -> (r: u32)
        ensures
            r == itype(Opcode::SDC1.spec_value(), base.id(), rt.id(), offset as u16),
    {
        Self::make_main_immediate(
            Opcode::SDC1,
            GPR::new_with_raw_value(rt.raw_value()),
            base,
            offset as u16,
        )
    }

    pub fn make_mfc1(rt: GPR, rd: FR) -> (r: u32)
        ensures
            r == cop_word(17, Cop1Opcode::MFC1.spec_value(), rt.id(), rd.id()),
    {
        Self::make_cop1instruction(Cop1Opcode::MFC1, rt.raw_value(), rd.raw_value())
    }

    pub fn make_mtc1(rt: GPR, rd: FR) -> (r: u32)
        ensures
            r == cop_word(17, Cop1Opcode::MTC1.spec_value(), rt.id(), rd.id()),
    {
        Self::make_cop1instruction(Cop1Opcode::MTC1, rt.raw_value(), rd.raw_value())
    }

    pub fn make_dmfc1(rt: GPR, rd: FR) -> (r: u32)
        ensures
            r == cop_word(17, Cop1Opcode::DMFC1.spec_value(), rt.id(), rd.id()),
    {
        Self::make_cop1instruction(Cop1Opcode::DMFC1, rt.raw_value(), rd.raw_value())
    }

    pub fn make_dmtc1(rt: GPR, rd: FR) -> (r: u32)
        ensures
            r == cop_word(17, Cop1Opcode::DMTC1.spec_value(), rt.id(), rd.id()),
    {
        Self::make_cop1instruction(Cop1Opcode::DMTC1, rt.raw_value(), rd.raw_value())
    }

    pub fn make_mfc2(rt: GPR, rd: U5) -> (r: u32)
        ensures
            r == cop_word(18, Cop2Opcode::MFC2.spec_value(), rt.id(), rd@),
    {
        Self::make_cop2instruction(Cop2Opcode::MFC2, rt.raw_value(), rd)
    }

    pub fn make_mtc2(rt: GPR, rd: U5) -> (r: u32)
        ensures
            r == cop_word(18, Cop2Opcode::MTC2.spec_value(), rt.id(), rd@),
    {
        Self::make_cop2instruction(Cop2Opcode::MTC2, rt.raw_value(), rd)
    }

    pub fn make_dmfc2(rt: GPR, rd: U5) -> (r: u32)
        ensures
            r == cop_word(18, Cop2Opcode::DMFC2.spec_value(), rt.id(), rd@),
    {
        Self::make_cop2instruction(Cop2Opcode::DMFC2, rt.raw_value(), rd)
    }

    pub fn make_dmtc2(rt: GPR, rd: U5) -> (r: u32)
        ensures
            r == cop_word(18, Cop2Opcode::DMTC2.spec_value(), rt.id(), rd@),
    {
        Self::make_cop2instruction(Cop2Opcode::DMTC2, rt.raw_value(), rd)
    }

    pub fn make_cfc2(rt: GPR, rd: U5) -> (r: u32)
        ensures
            r == cop_word(18, Cop2Opcode::CFC2.spec_value(), rt.id(), rd@),
    {
        Self::make_cop2instruction(Cop2Opcode::CFC2, rt.raw_value(), rd)
    }

    pub fn make_ctc2(rt: GPR, rd: U5) -> (r: u32)
        ensures
            r == cop_word(18, Cop2Opcode::CTC2.spec_value(), rt.id(), rd@),
    {
        Self::make_cop2instruction(Cop2Opcode::CTC2, rt.raw_value(), rd)
    }

    pub fn make_dcfc2(rt: GPR, rd: U5) -> (r: u32)
        ensures
            r == cop_word(18, Cop2Opcode::_DCFC2.spec_value(), rt.id(), rd@),
    {
        Self::make_cop2instruction(Cop2Opcode::_DCFC2, rt.raw_value(), rd)
    }

    pub fn make_dctc2(rt: GPR, rd: U5) -> (r: u32)
        ensures
            r == cop_word(18, Cop2Opcode::_DCTC2.spec_value(), rt.id(), rd@),
    {
        Self::make_cop2instruction(Cop2Opcode::_DCTC2, rt.raw_value(), rd)
    }

    pub fn make_mfc3(rt: GPR, rd: U5) -> (r: u32)
        ensures
            r == cop_word(19, Cop3Opcode::MFC3.spec_value(), rt.id(), rd@),
    {
        Self::make_cop3instruction(Cop3Opcode::MFC3, rt.raw_value(), rd)
    }
}


/// An I-type word's fields come back out of their bit positions.
pub proof fn itype_fields(op: u32, rs: u8, rt: u8, imm: u16)
    requires
        op < 64,
        rs < 32,
        rt < 32,
    ensures
        itype(op, rs, rt, imm) >> 26u32 == op,
        (itype(op, rs, rt, imm) >> 21u32) & 0x1F == rs,
        (itype(op, rs, rt, imm) >> 16u32) & 0x1F == rt,
        itype(op, rs, rt, imm) & 0xFFFF == imm,
{
    let (s, t, i) = (rs as u32, rt as u32, imm as u32);
    lemma_itype_bits(op, s, t, i);
}

/// A SPECIAL word's fields come back out of their bit positions; its opcode field is zero.
pub proof fn rtype_fields(rs: u8, rt: u8, rd: u8, sa: u8, funct: u32)
    requires
        rs < 32,
        rt < 32,
        rd < 32,
        sa < 32,
        funct < 64,
    ensures
        rtype(rs, rt, rd, sa, funct) >> 26u32 == 0,
        (rtype(rs, rt, rd, sa, funct) >> 21u32) & 0x1F == rs,
        (rtype(rs, rt, rd, sa, funct) >> 16u32) & 0x1F == rt,
        (rtype(rs, rt, rd, sa, funct) >> 11u32) & 0x1F == rd,
        (rtype(rs, rt, rd, sa, funct) >> 6u32) & 0x1F == sa,
        rtype(rs, rt, rd, sa, funct) & 0x3F == funct,
{
    let (s, t, d, a) = (rs as u32, rt as u32, rd as u32, sa as u32);
    lemma_rtype_bits(funct, a, d, t, s);
}

/// A coprocessor word's fields come back out of their bit positions.
pub proof fn cop_word_fields(cop: u32, op: u32, rt: u8, rd: u8)
    requires
        cop < 64,
        op < 32,
        rt < 32,
        rd < 32,
    ensures
        cop_word(cop, op, rt, rd) >> 26u32 == cop,
        (cop_word(cop, op, rt, rd) >> 21u32) & 0x1F == op,
        (cop_word(cop, op, rt, rd) >> 16u32) & 0x1F == rt,
        (cop_word(cop, op, rt, rd) >> 11u32) & 0x1F == rd,
        cop_word(cop, op, rt, rd) & 0x7FF == 0,
{
    let (t, d) = (rt as u32, rd as u32);
    lemma_cop_bits(cop, op, t, d);
}

/// An FPU word's fields come back out of their bit positions once a format is filled in.
pub proof fn float_word_fields(funct: u32, fd: u8, fs: u8, ft: u8, format: u32)
    requires
        funct < 64,
        fd < 32,
        fs < 32,
        ft < 32,
        format < 32,
    ensures
        ({
            let w = (float_word(funct, fd, fs, ft) + format * 0x20_0000) as u32;
            &&& w >> 26u32 == 17
            &&& (w >> 21u32) & 0x1F == format
            &&& (w >> 16u32) & 0x1F == ft
            &&& (w >> 11u32) & 0x1F == fs
            &&& (w >> 6u32) & 0x1F == fd
            &&& w & 0x3F == funct
        }),
{
    let (d, s, t) = (fd as u32, fs as u32, ft as u32);
    lemma_float_bits(funct, d, s, t);
    let base = funct | (d << 6u32) | (s << 11u32) | (t << 16u32) | (17u32 << 26u32);
    lemma_format_bits(base, format);
    assert(funct < 64 && d < 32 && s < 32 && t < 32 && format < 32 ==> {
        let w = (funct | (d << 6u32) | (s << 11u32) | (t << 16u32) | (17u32 << 26u32)) | (format
            << 21u32);
        &&& w >> 26u32 == 17
        &&& (w >> 21u32) & 0x1F == format
        &&& (w >> 16u32) & 0x1F == t
        &&& (w >> 11u32) & 0x1F == s
        &&& (w >> 6u32) & 0x1F == d
        &&& w & 0x3F == funct
    }) by (bit_vector);
}


/// Register numbers identify the GPR values.
pub proof fn gpr_value_injective(a: GPR, b: GPR)
    ensures
        a.id() == b.id() ==> a == b,
{
}

/// The stepping functions agree as `Step` requires: `steps_between(a, b)` is `Some(n)` iff
/// stepping `n` forward from `a` gives `b`, iff stepping `n` back from `b` gives `a`.
pub proof fn gpr_step_law(a: GPR, b: GPR, n: usize)
    ensures
        GPR::spec_steps_between(a, b) == Some(n) <==> GPR::spec_forward_checked(a, n as int) == Some(b),
        GPR::spec_forward_checked(a, n as int) == Some(b) <==> GPR::spec_backward_checked(b, n as int)
            == Some(a),
        GPR::spec_steps_between(a, a) == Some(0usize),
{
}

/// Register numbers identify the FR values.
pub proof fn fr_value_injective(a: FR, b: FR)
    ensures
        a.id() == b.id() ==> a == b,
{
}

/// The stepping functions agree as `Step` requires: `steps_between(a, b)` is `Some(n)` iff
/// stepping `n` forward from `a` gives `b`, iff stepping `n` back from `b` gives `a`.
pub proof fn fr_step_law(a: FR, b: FR, n: usize)
    ensures
        FR::spec_steps_between(a, b) == Some(n) <==> FR::spec_forward_checked(a, n as int) == Some(b),
        FR::spec_forward_checked(a, n as int) == Some(b) <==> FR::spec_backward_checked(b, n as int)
            == Some(a),
        FR::spec_steps_between(a, a) == Some(0usize),
{
}

/// Register numbers identify the Cop1Condition values.
pub proof fn cop1condition_value_injective(a: Cop1Condition, b: Cop1Condition)
    ensures
        a.spec_value() == b.spec_value() ==> a == b,
{
}

/// The stepping functions agree as `Step` requires: `steps_between(a, b)` is `Some(n)` iff
/// stepping `n` forward from `a` gives `b`, iff stepping `n` back from `b` gives `a`.
pub proof fn cop1condition_step_law(a: Cop1Condition, b: Cop1Condition, n: usize)
    ensures
        Cop1Condition::spec_steps_between(a, b) == Some(n) <==> Cop1Condition::spec_forward_checked(a, n as int) == Some(b),
        Cop1Condition::spec_forward_checked(a, n as int) == Some(b) <==> Cop1Condition::spec_backward_checked(b, n as int)
            == Some(a),
        Cop1Condition::spec_steps_between(a, a) == Some(0usize),
{
}

/// Distinct main opcodes encode as distinct numbers.
pub proof fn opcode_numbers_distinct(a: Opcode, b: Opcode)
    ensures
        a.spec_value() == b.spec_value() ==> a == b,
{
}

/// The regularities of the main opcode table: each store is its load's number plus 8, each
/// unsigned load its signed load's number plus 4, each branch-likely its branch's number plus
/// 16, each doubleword immediate its word immediate's number plus 16, coprocessor z's opcode is
/// 16 + z, and the loads and stores fill 32..=47 with the word load at 35.
pub proof fn opcode_table_structure()
    ensures
        Opcode::SB.spec_value() == Opcode::LB.spec_value() + 8,
        Opcode::SH.spec_value() == Opcode::LH.spec_value() + 8,
        Opcode::SWL.spec_value() == Opcode::LWL.spec_value() + 8,
        Opcode::SW.spec_value() == Opcode::LW.spec_value() + 8,
        Opcode::SWR.spec_value() == Opcode::LWR.spec_value() + 8,
        Opcode::SD.spec_value() == Opcode::LD.spec_value() + 8,
        Opcode::SC.spec_value() == Opcode::LL.spec_value() + 8,
        Opcode::SCD.spec_value() == Opcode::LLD.spec_value() + 8,
        Opcode::SWC1.spec_value() == Opcode::LWC1.spec_value() + 8,
        Opcode::SDC1.spec_value() == Opcode::LDC1.spec_value() + 8,
        Opcode::LBU.spec_value() == Opcode::LB.spec_value() + 4,
        Opcode::LHU.spec_value() == Opcode::LH.spec_value() + 4,
        Opcode::LWU.spec_value() == Opcode::LW.spec_value() + 4,
        Opcode::BEQL.spec_value() == Opcode::BEQ.spec_value() + 16,
        Opcode::BNEL.spec_value() == Opcode::BNE.spec_value() + 16,
        Opcode::BLEZL.spec_value() == Opcode::BLEZ.spec_value() + 16,
        Opcode::BGTZL.spec_value() == Opcode::BGTZ.spec_value() + 16,
        Opcode::DADDI.spec_value() == Opcode::ADDI.spec_value() + 16,
        Opcode::DADDIU.spec_value() == Opcode::ADDIU.spec_value() + 16,
        Opcode::COP0.spec_value() == 16,
        Opcode::COP1.spec_value() == 17,
        Opcode::COP2.spec_value() == 18,
        Opcode::COP3.spec_value() == 19,
        Opcode::LB.spec_value() == 32,
        Opcode::LW.spec_value() == 35,
        Opcode::SB.spec_value() == 40,
{
}

/// Distinct SPECIAL functions encode as distinct numbers.
pub proof fn special_numbers_distinct(a: SpecialOpcode, b: SpecialOpcode)
    ensures
        a.spec_value() == b.spec_value() ==> a == b,
{
}

/// The regularities of the SPECIAL function table: each doubleword arithmetic function is its
/// word function's number plus 12, each doubleword variable shift its word shift's number plus
/// 16, each doubleword multiply or divide its word one's number plus 4, and the 32-bit-offset
/// doubleword shifts are the plain doubleword shifts plus 4.
pub proof fn special_table_structure()
    ensures
        SpecialOpcode::DADD.spec_value() == SpecialOpcode::ADD.spec_value() + 12,
        SpecialOpcode::DADDU.spec_value() == SpecialOpcode::ADDU.spec_value() + 12,
        SpecialOpcode::DSUB.spec_value() == SpecialOpcode::SUB.spec_value() + 12,
        SpecialOpcode::DSUBU.spec_value() == SpecialOpcode::SUBU.spec_value() + 12,
        SpecialOpcode::DSLLV.spec_value() == SpecialOpcode::SLLV.spec_value() + 16,
        SpecialOpcode::DSRLV.spec_value() == SpecialOpcode::SRLV.spec_value() + 16,
        SpecialOpcode::DSRAV.spec_value() == SpecialOpcode::SRAV.spec_value() + 16,
        SpecialOpcode::DMULT.spec_value() == SpecialOpcode::MULT.spec_value() + 4,
        SpecialOpcode::DMULTU.spec_value() == SpecialOpcode::MULTU.spec_value() + 4,
        SpecialOpcode::DDIV.spec_value() == SpecialOpcode::DIV.spec_value() + 4,
        SpecialOpcode::DDIVU.spec_value() == SpecialOpcode::DIVU.spec_value() + 4,
        SpecialOpcode::DSLL32.spec_value() == SpecialOpcode::DSLL.spec_value() + 4,
        SpecialOpcode::DSRL32.spec_value() == SpecialOpcode::DSRL.spec_value() + 4,
        SpecialOpcode::DSRA32.spec_value() == SpecialOpcode::DSRA.spec_value() + 4,
        SpecialOpcode::SLL.spec_value() == 0,
        SpecialOpcode::JR.spec_value() == 8,
        SpecialOpcode::ADD.spec_value() == 32,
{
}

/// Distinct REGIMM functions encode as distinct numbers.
pub proof fn regimm_numbers_distinct(a: RegimmOpcode, b: RegimmOpcode)
    ensures
        a.spec_value() == b.spec_value() ==> a == b,
{
}

/// Distinct coprocessor 0 operations encode as distinct numbers.
pub proof fn cop0_numbers_distinct(a: Cop0Opcode, b: Cop0Opcode)
    ensures
        a.spec_value() == b.spec_value() ==> a == b,
{
}

/// Distinct coprocessor 1 operations encode as distinct numbers.
pub proof fn cop1_numbers_distinct(a: Cop1Opcode, b: Cop1Opcode)
    ensures
        a.spec_value() == b.spec_value() ==> a == b,
{
}

/// Distinct FPU arithmetic functions encode as distinct numbers.
pub proof fn cop1_float_numbers_distinct(a: Cop1FloatInstruction, b: Cop1FloatInstruction)
    ensures
        a.spec_value() == b.spec_value() ==> a == b,
{
}

/// A load word puts opcode 35 in bits 31..=26 for every register and offset, and its store
/// opcode 43; the other fields are the arguments.
pub proof fn load_store_word_encoding(rt: GPR, offset: i16, base: GPR)
    ensures
        itype(Opcode::LW.spec_value(), base.id(), rt.id(), offset as u16) >> 26u32 == 35,
        itype(Opcode::SW.spec_value(), base.id(), rt.id(), offset as u16) >> 26u32 == 43,
        (itype(Opcode::LW.spec_value(), base.id(), rt.id(), offset as u16) >> 21u32) & 0x1F
            == base.id(),
        (itype(Opcode::LW.spec_value(), base.id(), rt.id(), offset as u16) >> 16u32) & 0x1F
            == rt.id(),
        itype(Opcode::LW.spec_value(), base.id(), rt.id(), offset as u16) & 0xFFFF == offset as u16,
{
    itype_fields(Opcode::LW.spec_value(), base.id(), rt.id(), offset as u16);
    itype_fields(Opcode::SW.spec_value(), base.id(), rt.id(), offset as u16);
}

} // verus!
