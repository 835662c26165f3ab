//! Unsigned integers of a fixed bit width narrower than their storage type. Constructing one
//! with a value that does not fit is excluded by `new`'s contract.
use vstd::prelude::*;

verus! {

/// A 4-bit unsigned integer.
#[derive(Clone, Copy, Debug, PartialEq, Eq, Structural)]
pub struct U4 {
    value: u8,
}

impl View for U4 {
    type V = u8;

    closed spec fn view(&self) -> u8 {
        self.value
    }
}

impl U4 {
    #[verifier::type_invariant]
    spec fn fits(self) -> bool {
        self.value < 0x10
    }

    pub const MAX_VALUE: u8 = 0xf;

    pub fn new(value: u8) -> (r: U4)
        requires
            value < 0x10,
        ensures
            r@ == value,
    {
        U4 { value }
    }

    pub fn value(self) -> (r: u8)
        ensures
            r == self@,
            r < 0x10,
    {
        proof {
            use_type_invariant(&self);
        }
        self.value
    }
}

/// A 5-bit unsigned integer.
#[derive(Clone, Copy, Debug, PartialEq, Eq, Structural)]
pub struct U5 {
    value: u8,
}

impl View for U5 {
    type V = u8;

    closed spec fn view(&self) -> u8 {
        self.value
    }
}

impl U5 {
    #[verifier::type_invariant]
    spec fn fits(self) -> bool {
        self.value < 0x20
    }

    pub const MAX_VALUE: u8 = 0x1f;

    pub fn new(value: u8) -> (r: U5)
        requires
            value < 0x20,
        ensures
            r@ == value,
    {
        U5 { value }
    }

    pub fn value(self) -> (r: u8)
        ensures
            r == self@,
            r < 0x20,
    {
        proof {
            use_type_invariant(&self);
        }
        self.value
    }
}

/// A 6-bit unsigned integer.
#[derive(Clone, Copy, Debug, PartialEq, Eq, Structural)]
pub struct U6 {
    value: u8,
}

impl View for U6 {
    type V = u8;

    closed spec fn view(&self) -> u8 {
        self.value
    }
}

impl U6 {
    #[verifier::type_invariant]
    spec fn fits(self) -> bool {
        self.value < 0x40
    }

    pub const MAX_VALUE: u8 = 0x3f;

    pub fn new(value: u8) -> (r: U6)
        requires
            value < 0x40,
        ensures
            r@ == value,
    {
        U6 { value }
    }

    pub fn value(self) -> (r: u8)
        ensures
            r == self@,
            r < 0x40,
    {
        proof {
            use_type_invariant(&self);
        }
        self.value
    }
}

/// A 10-bit unsigned integer.
#[derive(Clone, Copy, Debug, PartialEq, Eq, Structural)]
pub struct U10 {
    value: u16,
}

impl View for U10 {
    type V = u16;

    closed spec fn view(&self) -> u16 {
        self.value
    }
}

impl U10 {
    #[verifier::type_invariant]
    spec fn fits(self) -> bool {
        self.value < 0x400
    }

    pub const MAX_VALUE: u16 = 0x3ff;

    pub fn new(value: u16) -> (r: U10)
        requires
            value < 0x400,
        ensures
            r@ == value,
    {
        U10 { value }
    }

    pub fn value(self) -> (r: u16)
        ensures
            r == self@,
            r < 0x400,
    {
        proof {
            use_type_invariant(&self);
        }
        self.value
    }
}

/// A 12-bit unsigned integer.
#[derive(Clone, Copy, Debug, PartialEq, Eq, Structural)]
pub struct U12 {
    value: u16,
}

impl View for U12 {
    type V = u16;

    closed spec fn view(&self) -> u16 {
        self.value
    }
}

impl U12 {
    #[verifier::type_invariant]
    spec fn fits(self) -> bool {
        self.value < 0x1000
    }

    pub const MAX_VALUE: u16 = 0xfff;

    pub fn new(value: u16) -> (r: U12)
        requires
            value < 0x1000,
        ensures
            r@ == value,
    {
        U12 { value }
    }

    pub fn value(self) -> (r: u16)
        ensures
            r == self@,
            r < 0x1000,
    {
        proof {
            use_type_invariant(&self);
        }
        self.value
    }
}

/// A 24-bit unsigned integer.
#[derive(Clone, Copy, Debug, PartialEq, Eq, Structural)]
pub struct U24 {
    value: u32,
}

impl View for U24 {
    type V = u32;

    closed spec fn view(&self) -> u32 {
        self.value
    }
}

impl U24 {
    #[verifier::type_invariant]
    spec fn fits(self) -> bool {
        self.value < 0x1000000
    }

    pub const MAX_VALUE: u32 = 0xffffff;

    pub fn new(value: u32) -> (r: U24)
        requires
            value < 0x1000000,
        ensures
            r@ == value,
    {
        U24 { value }
    }

    pub fn value(self) -> (r: u32)
        ensures
            r == self@,
            r < 0x1000000,
    {
        proof {
            use_type_invariant(&self);
        }
        self.value
    }
}

/// A 26-bit unsigned integer.
#[derive(Clone, Copy, Debug, PartialEq, Eq, Structural)]
pub struct U26 {
    value: u32,
}

impl View for U26 {
    type V = u32;

    closed spec fn view(&self) -> u32 {
        self.value
    }
}

impl U26 {
    #[verifier::type_invariant]
    spec fn fits(self) -> bool {
        self.value < 0x4000000
    }

    pub const MAX_VALUE: u32 = 0x3ffffff;

    pub fn new(value: u32) -> (r: U26)
        requires
            value < 0x4000000,
        ensures
            r@ == value,
    {
        U26 { value }
    }

    pub fn value(self) -> (r: u32)
        ensures
            r == self@,
            r < 0x4000000,
    {
        proof {
            use_type_invariant(&self);
        }
        self.value
    }
}

} // verus!
