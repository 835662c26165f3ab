//! Verified core of an N64 test suite: a software RDP (command decoding, rasterization over an
//! abstract RDRAM), the MIPS/RDP instruction encoders, and the address arithmetic of the memory map.
use vstd::prelude::*;

pub mod cmd;
pub mod uint;
pub mod state;
pub mod rdram;
pub mod raster;
pub mod triangle;
pub mod soft;
pub mod assembler;
pub mod rdp_assembler;
pub mod memory_map;
pub mod vi;

pub use rdram::{Rdram, SliceRdram};
pub use soft::SoftRdp;

verus! {

} // verus!
