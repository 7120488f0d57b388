//! The sector map of the main flash array.
//!
//! The array is one mebibyte, split into twelve sectors of unequal size:
//! four of 16 KiB, one of 64 KiB and seven of 128 KiB, laid out back to
//! back from `FLASH_BASE`.

use vstd::prelude::*;

verus! {

/// Number of sectors in the main flash array.
pub const SECTOR_COUNT: u8 = 12;

/// Address of the first byte of sector 0.
pub const FLASH_BASE: usize = 0x0800_0000;

/// Size of the main flash array in bytes.
pub const FLASH_SIZE: usize = 0x0010_0000;

/// Size in bytes of a sector.
pub open spec fn sector_size(sector: u8) -> int {
    if sector < 4 {
        0x4000
    } else if sector == 4 {
        0x1_0000
    } else {
        0x2_0000
    }
}

/// Address of the first byte of a sector.
pub open spec fn sector_base(sector: u8) -> int {
    if sector < 4 {
        0x0800_0000 + sector * 0x4000
    } else if sector == 4 {
        0x0801_0000
    } else {
        0x0802_0000 + (sector - 5) * 0x2_0000
    }
}

/// An access of `access_size` bytes at `offset` stays inside the sector.
///
/// The bound is strict: the access has to end below the sector's last byte.
pub open spec fn access_fits(sector: u8, offset: int, access_size: int) -> bool {
    &&& sector < SECTOR_COUNT
    &&& 0 <= offset
    &&& 0 <= access_size
    &&& offset + access_size < sector_size(sector)
}

/// The sector that holds the flash byte at `address`.
pub open spec fn sector_at(address: int) -> u8
    recommends
        FLASH_BASE <= address < FLASH_BASE + FLASH_SIZE,
{
    let offset = address - FLASH_BASE;
    if offset < 0x1_0000 {
        (offset / 0x4000) as u8
    } else if offset < 0x2_0000 {
        4
    } else {
        (4 + offset / 0x2_0000) as u8
    }
}

/// Size and base address of one sector.
#[derive(Clone, Copy, Debug, PartialEq, Eq, Structural)]
pub struct SectorDescriptor {
    pub size: usize,
    pub base: usize,
}

/// Looks a sector up in the map.
pub fn descriptor(sector: u8) -> (d: SectorDescriptor)
    requires
        sector < SECTOR_COUNT,
    ensures
        d.size == sector_size(sector),
        d.base == sector_base(sector),
{
    if sector < 4 {
        SectorDescriptor { size: 0x4000, base: 0x0800_0000 + sector as usize * 0x4000 }
    } else if sector == 4 {
        SectorDescriptor { size: 0x1_0000, base: 0x0801_0000 }
    } else {
        SectorDescriptor { size: 0x2_0000, base: 0x0802_0000 + (sector - 5) as usize * 0x2_0000 }
    }
}

/// Tells whether an access of `access_size` bytes at `offset` stays inside
/// the sector. Sectors outside the map hold nothing.
pub fn fits(sector: u8, offset: usize, access_size: usize) -> (ok: bool)
    ensures
        ok == access_fits(sector, offset as int, access_size as int),
{
    if sector >= SECTOR_COUNT {
        return false;
    }
    let size: usize = descriptor(sector).size;
    offset < size && access_size < size - offset
}

/// Absolute address of the byte at `offset` in a sector, for an access of
/// `access_size` bytes that stays inside the sector.
pub fn address_for(sector: u8, offset: usize, access_size: usize) -> (address: usize)
    requires
        access_fits(sector, offset as int, access_size as int),
    ensures
        address == sector_base(sector) + offset,
{
    descriptor(sector).base + offset
}

/// Finds the sector that holds a flash address.
pub fn sector_of(address: usize) -> (sector: u8)
    requires
        FLASH_BASE <= address < FLASH_BASE + FLASH_SIZE,
    ensures
        sector == sector_at(address as int),
        sector < SECTOR_COUNT,
{
    let offset: usize = address - FLASH_BASE;
    if offset < 0x1_0000 {
        (offset / 0x4000) as u8
    } else if offset < 0x2_0000 {
        4
    } else {
        (4 + offset / 0x2_0000) as u8
    }
}

/// The sectors tile the array: the first starts at `FLASH_BASE`, each
/// starts where the one before it ends, and the last ends with the array.
pub proof fn sectors_are_contiguous(sector: u8)
    requires
        sector < SECTOR_COUNT,
    ensures
        sector_base(0) == FLASH_BASE,
        sector + 1 < SECTOR_COUNT ==> sector_base((sector + 1) as u8) == sector_base(sector)
            + sector_size(sector),
        sector_base(11) + sector_size(11) == FLASH_BASE + FLASH_SIZE,
        FLASH_BASE <= sector_base(sector),
        sector_base(sector) + sector_size(sector) <= FLASH_BASE + FLASH_SIZE,
        sector_base(sector) % 4 == 0,
        sector_size(sector) % 4 == 0,
{
}

/// Every byte of a sector is found again by `sector_at`.
pub proof fn sector_at_inverts_base(sector: u8, offset: int)
    requires
        sector < SECTOR_COUNT,
        0 <= offset < sector_size(sector),
    ensures
        sector_at(sector_base(sector) + offset) == sector,
{
}

} // verus!
