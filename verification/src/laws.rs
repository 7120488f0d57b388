//! What holds of the driver on every peripheral.
//!
//! The statements here are about the operations as `outcome` describes
//! them, which is what `Flash` is proved to do.

use vstd::prelude::*;
use crate::device::{clearing_leaves_nothing, faults_stay_in_place, raised_flags_show};
use crate::device::{Device, ERASED};
use crate::outcome::{contents, enabled, erase_effect, erase_result, erase_status, unlocked};
use crate::outcome::{write_effect, write_result, write_status};
use crate::sector::{access_fits, sector_at_inverts_base, sector_base, sector_size};
use crate::sector::{sectors_are_contiguous, FLASH_BASE, SECTOR_COUNT};
use crate::status::{has_program_fault, is_write_protected, snapshot_keeps_faults};

verus! {

/// Every byte of the sector holds the erased value.
pub open spec fn is_erased(memory: Seq<u8>, sector: u8) -> bool {
    forall|i: int|
        0 <= i < memory.len() && sector_base(sector) <= FLASH_BASE + i < sector_base(sector)
            + sector_size(sector) ==> #[trigger] memory[i] == ERASED
}

/// Where each sector starts and how large it is.
pub proof fn sector_map_is_as_documented()
    ensures
        sector_base(0) == 0x0800_0000 && sector_size(0) == 16 * 1024,
        sector_base(1) == 0x0800_4000 && sector_size(1) == 16 * 1024,
        sector_base(2) == 0x0800_8000 && sector_size(2) == 16 * 1024,
        sector_base(3) == 0x0800_C000 && sector_size(3) == 16 * 1024,
        sector_base(4) == 0x0801_0000 && sector_size(4) == 64 * 1024,
        sector_base(5) == 0x0802_0000 && sector_size(5) == 128 * 1024,
        sector_base(6) == 0x0804_0000 && sector_size(6) == 128 * 1024,
        sector_base(7) == 0x0806_0000 && sector_size(7) == 128 * 1024,
        sector_base(8) == 0x0808_0000 && sector_size(8) == 128 * 1024,
        sector_base(9) == 0x080A_0000 && sector_size(9) == 128 * 1024,
        sector_base(10) == 0x080C_0000 && sector_size(10) == 128 * 1024,
        sector_base(11) == 0x080E_0000 && sector_size(11) == 128 * 1024,
{
}

/// Unlocking a peripheral that comes out of reset leaves it ready, with no
/// flag set.
pub proof fn unlock_readies_fresh_peripheral(latency: nat)
    ensures
        unlocked(Device::fresh(latency)).wf(),
        unlocked(Device::fresh(latency)).ready(),
        unlocked(Device::fresh(latency)).flags == 0,
{
    assert(0u32 & !0xF0u32 == 0) by (bit_vector);
}

/// Erasing and writing take a valid state to a valid state, and a ready
/// controller stays ready.
pub proof fn operations_keep_ready(device: Device, sector: u8, offset: int, data: Seq<u8>)
    requires
        device.wf(),
        access_fits(sector, offset, data.len() as int),
    ensures
        erase_effect(device, sector).wf(),
        write_effect(device, sector_base(sector) + offset, data).wf(),
        device.ready() ==> erase_effect(device, sector).ready(),
        device.ready() ==> write_effect(device, sector_base(sector) + offset, data).ready(),
{
    clearing_leaves_nothing(device.flags);
}

/// A failed erase reports the write-protection flag, and a failed write one
/// of the four faults of a store.
pub proof fn failures_carry_their_fault(device: Device, sector: u8, offset: int, data: Seq<u8>)
    requires
        device.wf(),
        access_fits(sector, offset, data.len() as int),
    ensures
        match erase_result(device, sector) {
            Err(bits) => is_write_protected(bits as u32),
            Ok(_) => true,
        },
        match write_result(device, sector_base(sector) + offset, data) {
            Err(bits) => has_program_fault(bits as u32),
            Ok(_) => true,
        },
{
    snapshot_keeps_faults(erase_status(device, sector));
    snapshot_keeps_faults(write_status(device, sector_base(sector) + offset));
}

/// What was erased, then written, is read back as it was written: if an
/// erase of the sector and a write into it both succeed, a read over the
/// same bytes returns the data.
pub proof fn round_trip(device: Device, sector: u8, offset: int, data: Seq<u8>)
    requires
        device.wf(),
        data.len() % 4 == 0,
        access_fits(sector, offset, data.len() as int),
        erase_result(device, sector) is Ok,
        write_result(erase_effect(device, sector), sector_base(sector) + offset, data) is Ok,
    ensures
        contents(
            write_effect(erase_effect(device, sector), sector_base(sector) + offset, data),
            sector_base(sector) + offset,
            data.len() as int,
        ) == data,
{
    let address = sector_base(sector) + offset;
    let blank = erase_effect(device, sector);
    let written = write_effect(blank, address, data);
    sectors_are_contiguous(sector);
    sector_at_inverts_base(sector, offset);
    raised_flags_show(device.flags);
    faults_stay_in_place(device.flags);
    clearing_leaves_nothing(device.flags);
    raised_flags_show(blank.flags);
    faults_stay_in_place(blank.flags);
    if data.len() >= 4 {
        assert(enabled(blank).store_fault(address) is None);
        assert(device.is_open());
        assert forall|i: int| 0 <= i < data.len() implies #[trigger] contents(
            written,
            address,
            data.len() as int,
        )[i] == data[i] by {
            let byte = data[i];
            assert(0xFFu8 & byte == byte) by (bit_vector);
        }
    }
    assert(contents(written, address, data.len() as int) =~= data);
}

/// On a ready controller without old flags, an erase of an unprotected
/// sector and a word-aligned write into it succeed.
pub proof fn ready_sector_takes_erase_and_write(
    device: Device,
    sector: u8,
    offset: int,
    data: Seq<u8>,
)
    requires
        device.wf(),
        device.ready(),
        device.flags == 0,
        !device.protected[sector as int],
        offset % 4 == 0,
        access_fits(sector, offset, data.len() as int),
    ensures
        erase_result(device, sector) is Ok,
        write_result(device, sector_base(sector) + offset, data) is Ok,
        write_result(erase_effect(device, sector), sector_base(sector) + offset, data) is Ok,
{
    sectors_are_contiguous(sector);
    sector_at_inverts_base(sector, offset);
    raised_flags_show(0);
    clearing_leaves_nothing(0);
}

/// Erasing a sector that is erased already changes no byte and succeeds,
/// unless the sector is protected or the write-protection flag was left
/// set.
pub proof fn erase_of_erased_sector(device: Device, sector: u8)
    requires
        device.wf(),
        sector < SECTOR_COUNT,
        is_erased(device.memory, sector),
        !(device.is_open() && device.protected[sector as int]),
        !is_write_protected(device.flags),
    ensures
        erase_result(device, sector) is Ok,
        erase_effect(device, sector).memory == device.memory,
        is_erased(erase_effect(device, sector).memory, sector),
{
    assert(erase_effect(device, sector).memory =~= device.memory);
}

/// An erase that an open controller does not refuse leaves the sector
/// erased, and a second erase right after it succeeds too and changes
/// nothing.
pub proof fn erase_twice_is_erase_once(device: Device, sector: u8)
    requires
        device.wf(),
        sector < SECTOR_COUNT,
        device.is_open(),
        erase_result(device, sector) is Ok,
    ensures
        is_erased(erase_effect(device, sector).memory, sector),
        erase_result(erase_effect(device, sector), sector) is Ok,
        erase_effect(erase_effect(device, sector), sector) == erase_effect(device, sector),
{
    raised_flags_show(device.flags);
    let once = erase_effect(device, sector);
    assert(!device.protected[sector as int]);
    assert(once.flags == device.flags);
    assert(erase_effect(once, sector).memory =~= once.memory);
    assert(erase_effect(once, sector) =~= once);
}

/// A write never sets a bit: whatever it reports, every bit of the array
/// that is one afterwards was one before.
pub proof fn write_only_clears_bits(device: Device, sector: u8, offset: int, data: Seq<u8>)
    requires
        device.wf(),
        access_fits(sector, offset, data.len() as int),
    ensures
        write_effect(device, sector_base(sector) + offset, data).memory.len()
            == device.memory.len(),
        forall|i: int|
            0 <= i < device.memory.len() ==> (#[trigger] write_effect(
                device,
                sector_base(sector) + offset,
                data,
            ).memory[i]) & !device.memory[i] == 0,
{
    let after = write_effect(device, sector_base(sector) + offset, data).memory;
    assert forall|i: int| 0 <= i < device.memory.len() implies (#[trigger] after[i])
        & !device.memory[i] == 0 by {
        let old_byte = device.memory[i];
        let new_byte = after[i];
        assert(old_byte & !old_byte == 0) by (bit_vector);
        assert(forall|other: u8| (old_byte & other) & !old_byte == 0) by (bit_vector);
    }
}

/// An open controller refuses to erase a protected sector: the erase
/// reports the write-protection flag and changes no byte.
pub proof fn protected_sector_refuses_erase(device: Device, sector: u8)
    requires
        device.wf(),
        sector < SECTOR_COUNT,
        device.is_open(),
        device.protected[sector as int],
    ensures
        erase_effect(device, sector).memory == device.memory,
        match erase_result(device, sector) {
            Err(bits) => is_write_protected(bits as u32),
            Ok(_) => false,
        },
{
    raised_flags_show(device.flags);
    snapshot_keeps_faults(erase_status(device, sector));
}

/// A ready controller refuses to program a protected sector: a
/// word-aligned write that is not empty reports the write-protection flag
/// and changes no byte.
pub proof fn protected_sector_refuses_write(
    device: Device,
    sector: u8,
    offset: int,
    data: Seq<u8>,
)
    requires
        device.wf(),
        device.ready(),
        device.protected[sector as int],
        offset % 4 == 0,
        data.len() >= 4,
        access_fits(sector, offset, data.len() as int),
    ensures
        write_effect(device, sector_base(sector) + offset, data).memory == device.memory,
        match write_result(device, sector_base(sector) + offset, data) {
            Err(bits) => is_write_protected(bits as u32),
            Ok(_) => false,
        },
{
    let address = sector_base(sector) + offset;
    sectors_are_contiguous(sector);
    sector_at_inverts_base(sector, offset);
    raised_flags_show(device.flags);
    snapshot_keeps_faults(write_status(device, address));
}

} // verus!
