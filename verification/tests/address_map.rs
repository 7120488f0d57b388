use stm32_flash::peripheral::Peripheral;
use stm32_flash::sector::{address_for, descriptor, fits, sector_of};
use stm32_flash::sector::{FLASH_BASE, FLASH_SIZE, SECTOR_COUNT};
use stm32_flash::Flash;

const BASES: [usize; 12] = [
    0x0800_0000,
    0x0800_4000,
    0x0800_8000,
    0x0800_C000,
    0x0801_0000,
    0x0802_0000,
    0x0804_0000,
    0x0806_0000,
    0x0808_0000,
    0x080A_0000,
    0x080C_0000,
    0x080E_0000,
];

const SIZES: [usize; 12] = [
    0x4000, 0x4000, 0x4000, 0x4000, 0x1_0000, 0x2_0000, 0x2_0000, 0x2_0000, 0x2_0000, 0x2_0000,
    0x2_0000, 0x2_0000,
];

#[test]
fn sector_zero_starts_at_flash_base() {
    assert!(fits(0, 0, 4));
    assert_eq!(address_for(0, 0, 4), 0x0800_0000);
}

#[test]
fn every_sector_starts_at_its_documented_base() {
    for sector in 0..12u8 {
        assert_eq!(address_for(sector, 0, 4), BASES[sector as usize]);
        assert_eq!(address_for(sector, 0, 0), BASES[sector as usize]);
    }
}

#[test]
fn descriptors_match_the_sector_map() {
    for sector in 0..12u8 {
        let map = descriptor(sector);
        assert_eq!(map.base, BASES[sector as usize]);
        assert_eq!(map.size, SIZES[sector as usize]);
    }
}

#[test]
fn sectors_tile_the_array() {
    assert_eq!(SECTOR_COUNT, 12);
    assert_eq!(descriptor(0).base, FLASH_BASE);
    for sector in 0..11u8 {
        let here = descriptor(sector);
        assert_eq!(descriptor(sector + 1).base, here.base + here.size);
    }
    let last = descriptor(11);
    assert_eq!(last.base + last.size, FLASH_BASE + FLASH_SIZE);
}

#[test]
fn offset_is_added_to_the_base() {
    assert_eq!(address_for(0, 0x1000, 4), 0x0800_1000);
    assert_eq!(address_for(4, 0xFFF0, 8), 0x0801_FFF0);
    assert_eq!(address_for(11, 0x1_FFF8, 4), 0x080F_FFF8);
}

#[test]
fn access_must_end_below_the_last_byte() {
    for sector in 0..12u8 {
        let size = SIZES[sector as usize];
        assert!(fits(sector, size - 5, 4));
        assert!(fits(sector, size - 8, 4));
        assert!(!fits(sector, size - 4, 4));
        assert!(!fits(sector, size - 3, 4));
        assert!(!fits(sector, size, 0));
        assert!(fits(sector, size - 1, 0));
        assert!(!fits(sector, 0, size));
        assert!(fits(sector, 0, size - 1));
        assert!(!fits(sector, size + 16, 4));
    }
}

#[test]
fn huge_offsets_and_sizes_are_rejected() {
    assert!(!fits(0, usize::MAX, 4));
    assert!(!fits(0, 4, usize::MAX));
    assert!(!fits(0, usize::MAX, usize::MAX));
}

#[test]
fn sectors_outside_the_map_hold_nothing() {
    assert!(!fits(12, 0, 0));
    assert!(!fits(12, 0, 4));
    assert!(!fits(255, 0, 4));
}

#[test]
fn addresses_are_found_in_their_sector() {
    for sector in 0..12u8 {
        let base = BASES[sector as usize];
        let size = SIZES[sector as usize];
        assert_eq!(sector_of(base), sector);
        assert_eq!(sector_of(base + size / 2), sector);
        assert_eq!(sector_of(base + size - 1), sector);
    }
}

#[test]
fn controller_resolves_addresses_in_its_sector() {
    let flash = Flash::new(Peripheral::new(0), 5);
    assert_eq!(flash.sector, 5);
    assert_eq!(flash.get_address(0, 4), 0x0802_0000);
    assert_eq!(flash.get_address(0x100, 16), 0x0802_0100);
}
