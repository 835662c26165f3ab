use n64_systemtest::memory_map::MemoryMap;
use n64_systemtest::uint::{U10, U4};
use n64_systemtest::vi::{
    frontbuffer_dram_address, frontbuffer_physical_address, init_registers, switch_framebuffer_type,
    vsync_reached, RegisterOffset, Status, StatusFramebufferType, VIIntr,
};

#[test]
fn addresses_sign_extend() {
    assert_eq!(MemoryMap::addr32_to_usize(0x8000_1234), 0xFFFF_FFFF_8000_1234);
    assert_eq!(MemoryMap::addr32_to_usize(0x1234), 0x1234);
    assert_eq!(MemoryMap::addr32_to_usize(0xA000_0000) | MemoryMap::HEAP_END, MemoryMap::HEAP_END_VIRTUAL_UNCACHED);
}

#[test]
fn cached_and_uncached_aliases() {
    assert_eq!(MemoryMap::uncached(0xFFFF_FFFF_8000_1234), 0xFFFF_FFFF_A000_1234);
    assert_eq!(MemoryMap::uncached_mut(0x8010_0000), 0xFFFF_FFFF_A010_0000);
    assert_eq!(MemoryMap::physical_to_cached(0x1234), 0xFFFF_FFFF_8000_1234);
    assert_eq!(MemoryMap::physical_to_cached_mut(0x1234), 0xFFFF_FFFF_8000_1234);
    assert_eq!(MemoryMap::physical_to_uncached_mut(0x1234), 0xFFFF_FFFF_A000_1234);
    assert_eq!(MemoryMap::uncached_to_physical_mut(0xFFFF_FFFF_A000_1234), 0x1234);
    assert_eq!(MemoryMap::cached_to_physical_mut(0xFFFF_FFFF_8000_1234), 0x1234);
    assert_eq!(MemoryMap::uncached_spmem_address(0x10), 0xFFFF_FFFF_A400_0010);
    assert_eq!(MemoryMap::uncached_pifram_address(0x3C), 0xFFFF_FFFF_BFC0_07FC);
}

#[test]
fn cart_addresses() {
    assert_eq!(MemoryMap::physical_cart_address(0x8000_2000, 0x8000_0400, 0x8010_0000, 0x1000), 0x1000_3000);
    assert_eq!(MemoryMap::uncached_cart_address(0x1000_3000), 0xFFFF_FFFF_B000_3000);
}

#[test]
fn vi_init_program() {
    let program = init_registers();
    assert_eq!(program.len(), 11);
    assert_eq!(program[0], (RegisterOffset::Status, 0x324E));
    assert_eq!(program[1], (RegisterOffset::VIntr, 2));
    assert_eq!(program[2], (RegisterOffset::Timing, 0x03E5_2239));
    assert_eq!(program[8], (RegisterOffset::VBurst, 0x000E_0204));
    assert_eq!(program[9], (RegisterOffset::XScale, 0x200));
    assert_eq!(program[10], (RegisterOffset::YScale, 0x400));
    assert_eq!(RegisterOffset::YScale.value(), 0x34);
}

#[test]
fn status_builder_matches_program() {
    let status = Status::new()
        .with_framebuffer_type(StatusFramebufferType::Bits16)
        .with_gamma_dither(true)
        .with_gamma_boost(true)
        .with_serrate(true)
        .with_anti_alias(false)
        .with_resample(true)
        .with_pixel_advance(U4::new(3));
    assert_eq!(status.raw_value(), 0x324E);
    assert_eq!(status.framebuffer_type(), Some(StatusFramebufferType::Bits16));
    assert_eq!(VIIntr::new().with_row(U10::new(2)).raw_value(), 2);
}

#[test]
fn switching_framebuffer_type_reports_previous() {
    let (off, previous) = switch_framebuffer_type(0x324E, StatusFramebufferType::Off);
    assert_eq!(off, 0x324C);
    assert_eq!(previous, StatusFramebufferType::Bits16);
    let (back, was) = switch_framebuffer_type(off, previous);
    assert_eq!(back, 0x324E);
    assert_eq!(was, StatusFramebufferType::Off);
    // the reserved type 1 reads back as off
    let (_, reserved) = switch_framebuffer_type(0x3001, StatusFramebufferType::Bits32);
    assert_eq!(reserved, StatusFramebufferType::Off);
    assert_eq!(Status::new_with_raw_value(0x3001).framebuffer_type(), None);
}

#[test]
fn frontbuffer_addresses() {
    assert_eq!(frontbuffer_physical_address(Some(0x8010_0000)), 0x0010_0000);
    assert_eq!(frontbuffer_physical_address(None), 0);
    assert_eq!(frontbuffer_dram_address(0x8010_0000), 0xA010_0000);
}

#[test]
fn vsync_wait_ends_below_line_10() {
    assert!(vsync_reached(0));
    assert!(vsync_reached(8));
    assert!(!vsync_reached(10));
    assert!(!vsync_reached(524));
}

#[test]
fn physical_addresses_survive_both_aliases() {
    for address in [0u64, 0x1234, 0x0040_0000, 0x1FFF_FFFF] {
        assert_eq!(MemoryMap::uncached_to_physical_mut(MemoryMap::physical_to_uncached_mut(address)), address);
        assert_eq!(MemoryMap::cached_to_physical_mut(MemoryMap::physical_to_cached_mut(address)), address);
    }
    let cached = 0xFFFF_FFFF_8012_3456;
    assert_eq!(
        MemoryMap::uncached_to_physical_mut(MemoryMap::uncached(cached)),
        MemoryMap::cached_to_physical_mut(cached)
    );
}

#[test]
fn elf_header_offset_from_dmem() {
    assert_eq!(MemoryMap::elf_header_offset_of(0x0012_3456), 0x1200);
    assert_eq!(MemoryMap::elf_header_offset_of(0xFFFF_FFFF), 0xFF_FF00);
    assert_eq!(MemoryMap::elf_header_offset_of(0x0000_FFFF), 0);
}

#[test]
fn disable_then_restore_keeps_later_bits() {
    let (off, previous) = switch_framebuffer_type(0x324E, StatusFramebufferType::Off);
    assert_eq!(off, 0x324C);
    // something changes other bits while the video is off
    let later = off | 0x0100;
    let (restored, _) = switch_framebuffer_type(later, previous);
    assert_eq!(restored, 0x334E);
    // a reserved type comes back as off
    let (_, reserved) = switch_framebuffer_type(0x3001, StatusFramebufferType::Off);
    assert_eq!(switch_framebuffer_type(0x3000, reserved).0, 0x3000);
}
