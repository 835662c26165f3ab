//! Address arithmetic of the N64 memory map: KSEG0 (cached, 0x8000_0000) and KSEG1 (uncached,
//! 0xA000_0000) views of the 512 MiB physical space, sign-extended to 64-bit addresses (the
//! CPU's pointers are 64 bits wide).
//!
//! Memory map of the test ROM:
//! 0x8000_0000 to (as much as needed): bss, text, data, rodata
//! until 3.0mb: heap (including the framebuffer)
//! growing down from the end: stack
use vstd::prelude::*;

verus! {

pub struct MemoryMap {}

/// A 32-bit address sign-extended to 64 bits.
pub open spec fn sign_extend_32(from: u32) -> u64 {
    if from >= 0x8000_0000 {
        (from + 0xFFFF_FFFF_0000_0000u64) as u64
    } else {
        from as u64
    }
}

/// Physical address bits of a KSEG0/KSEG1 address.
pub open spec fn physical_bits(address: u64) -> u64 {
    address & 0x1FFF_FFFF
}

impl MemoryMap {
    pub const HEAP_END: u64 = 0x70_0000;
    pub const HEAP_END_VIRTUAL_UNCACHED: u64 = 0xFFFF_FFFF_A070_0000;
    pub const PHYSICAL_SPMEM_BASE: u64 = 0x0400_0000;
    pub const PHYSICAL_PIFRAM_BASE: u64 = 0x1FC0_07C0;

    /// Sign-extends a 32-bit address to the 64-bit pointer width of the CPU, as the CPU does
    /// for 32-bit pointers.
    pub fn addr32_to_usize(from: u32) -> (r: u64)
        ensures
            r == sign_extend_32(from),
    {
        let r = from as i32 as i64 as u64;
        assert(r == sign_extend_32(from)) by (bit_vector)
            requires
                r == from as i32 as i64 as u64,
        ;
        r
    }

    /// The ELF header offset that IPL3 leaves in DMEM bytes 12..=15: the upper 16 bits of that
    /// word, in units of 256 bytes.
    pub fn elf_header_offset_of(dmem_word: u32) -> (r: usize)
        ensures
            r == (dmem_word / 0x10000) * 0x100,
    {
        ((dmem_word / 0x10000) * 0x100) as usize
    }

    /// The uncached (KSEG1) alias of a cached (KSEG0) address, e.g. 0xA000_1234 for
    /// 0x8000_1234.
    pub fn uncached(memory_address: u64) -> (r: u64)
        requires
            memory_address & 0xE000_0000 == 0x8000_0000,
        ensures
            r == 0xFFFF_FFFF_A000_0000 | physical_bits(memory_address),
    {
        let r = (((memory_address as i32) & 0x1FFF_FFFF) | (0xA000_0000u32 as i32)) as i64 as u64;
        assert(r == 0xFFFF_FFFF_A000_0000 | (memory_address & 0x1FFF_FFFF)) by (bit_vector)
            requires
                r == (((memory_address as i32) & 0x1FFF_FFFF) | (0xA000_0000u32 as i32)) as i64 as u64,
        ;
        r
    }

    pub fn uncached_mut(memory_address: u64) -> (r: u64)
        requires
            memory_address & 0xE000_0000 == 0x8000_0000,
        ensures
            r == 0xFFFF_FFFF_A000_0000 | physical_bits(memory_address),
    {
        Self::uncached(memory_address)
    }

    /// The cartridge (ROM) address of a constant loaded at `memory_address`, given the loaded
    /// ROM's bounds and the ELF header offset.
    pub fn physical_cart_address(
        memory_address: u32,
        loaded_rom_start: u32,
        loaded_rom_end: u32,
        elf_header_offset: u32,
    ) -> (r: u32)
        requires
            memory_address >= loaded_rom_start,
            memory_address < loaded_rom_end,
            memory_address >= 0x8000_0000,
            memory_address - 0x8000_0000 + 0x1000_0000 + elf_header_offset <= u32::MAX,
        ensures
            r == memory_address - 0x8000_0000 + 0x1000_0000 + elf_header_offset,
    {
        memory_address - 0x8000_0000 + 0x10000000 + elf_header_offset
    }

    /// The uncached address of a cartridge address.
    pub fn uncached_cart_address(physical_cart_address: u32) -> (r: u64)
        ensures
            r == sign_extend_32(physical_cart_address | 0xA000_0000),
    {
        Self::addr32_to_usize(physical_cart_address | 0xA000_0000)
    }

    pub fn physical_to_uncached_mut(address: u64) -> (r: u64)
        ensures
            r == address | 0xFFFF_FFFF_A000_0000,
    {
        address | 0xFFFF_FFFF_A000_0000
    }

    pub fn physical_to_cached_mut(address: u64) -> (r: u64)
        ensures
            r == address | 0xFFFF_FFFF_8000_0000,
    {
        Self::physical_to_cached(address)
    }

    pub fn physical_to_cached(address: u64) -> (r: u64)
        ensures
            r == address | 0xFFFF_FFFF_8000_0000,
    {
        address | 0xFFFF_FFFF_8000_0000
    }

    pub fn uncached_to_physical_mut(p: u64) -> (r: u64)
        ensures
            r == physical_bits(p),
    {
        p & 0x1FFF_FFFF
    }

    pub fn cached_to_physical_mut(p: u64) -> (r: u64)
        ensures
            r == physical_bits(p),
    {
        p & 0x1FFF_FFFF
    }

    pub fn uncached_spmem_address(offset: u64) -> (r: u64)
        requires
            offset <= u64::MAX - Self::PHYSICAL_SPMEM_BASE,
        ensures
            r == (Self::PHYSICAL_SPMEM_BASE + offset) as u64 | 0xFFFF_FFFF_A000_0000,
    {
        Self::physical_to_uncached_mut(Self::PHYSICAL_SPMEM_BASE + offset)
    }

    pub fn uncached_pifram_address(offset: u64) -> (r: u64)
        requires
            offset <= u64::MAX - Self::PHYSICAL_PIFRAM_BASE,
        ensures
            r == (Self::PHYSICAL_PIFRAM_BASE + offset) as u64 | 0xFFFF_FFFF_A000_0000,
    {
        Self::physical_to_uncached_mut(Self::PHYSICAL_PIFRAM_BASE + offset)
    }
}


/// A physical address (below 512 MiB) survives the trip through its uncached alias, and
/// through its cached alias.
pub proof fn physical_round_trip(address: u64)
    requires
        address < 0x2000_0000,
    ensures
        physical_bits(address | 0xFFFF_FFFF_A000_0000) == address,
        physical_bits(address | 0xFFFF_FFFF_8000_0000) == address,
{
    lemma_segment_bits(address);
}

/// The uncached alias of a cached address names the same physical address.
pub proof fn uncached_alias_same_physical(memory_address: u64)
    ensures
        physical_bits(0xFFFF_FFFF_A000_0000 | physical_bits(memory_address)) == physical_bits(
            memory_address,
        ),
{
    lemma_segment_bits(memory_address);
}

/// Setting segment bits leaves the low 29 address bits alone.
proof fn lemma_segment_bits(a: u64)
    by (bit_vector)
    ensures
        a < 0x2000_0000 ==> (a | 0xFFFF_FFFF_A000_0000u64) & 0x1FFF_FFFFu64 == a,
        a < 0x2000_0000 ==> (a | 0xFFFF_FFFF_8000_0000u64) & 0x1FFF_FFFFu64 == a,
        (0xFFFF_FFFF_A000_0000u64 | (a & 0x1FFF_FFFFu64)) & 0x1FFF_FFFFu64 == a & 0x1FFF_FFFFu64,
{
}

} // verus!
