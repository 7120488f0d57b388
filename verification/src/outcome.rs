//! What the driver's operations do to a peripheral, start to end.
//!
//! Each operation is a sequence of commands with polling in between. The
//! functions here say in one piece what such a sequence leaves behind and
//! what it reports, for every state a `Device` can be in when it begins.

use vstd::prelude::*;
use crate::device::{erased, programmed};
use crate::device::{Control, Device, Lock, WORD_WIDTH};
use crate::protocol::{word_at, Command};
use crate::sector::FLASH_BASE;
use crate::status::{has_program_fault, is_write_protected, snapshot, WRITE_PROTECT};

verus! {

/// The peripheral after the unlock sequence and the choice of 32-bit
/// programming. Only a controller that was locked and saw no key yet, or
/// one that is open already, is open afterwards.
pub open spec fn unlocked(device: Device) -> Device {
    let lock = match device.lock {
        Lock::Locked => Lock::Open,
        Lock::HalfOpen => Lock::Jammed,
        Lock::Open => Lock::Open,
        Lock::Jammed => Lock::Jammed,
    };
    Device {
        lock,
        control: if lock == Lock::Open {
            Control { width: WORD_WIDTH, ..device.control }
        } else {
            device.control
        },
        ..device
    }
}

/// The status that a sector erase reads when it is over: the flags that
/// were set before, and the write-protection flag if the erase was refused.
pub open spec fn erase_status(device: Device, sector: u8) -> u32 {
    if device.is_open() && device.protected[sector as int] {
        device.flags | WRITE_PROTECT
    } else {
        device.flags
    }
}

/// What a sector erase reports: the status, if it holds the
/// write-protection flag.
pub open spec fn erase_result(device: Device, sector: u8) -> Result<(), u16> {
    if is_write_protected(erase_status(device, sector)) {
        Err(snapshot(erase_status(device, sector)))
    } else {
        Ok(())
    }
}

/// The peripheral after a sector erase.
///
/// An open controller erases the sector unless it is protected, and is
/// left with sector erase selected for that sector. A failed erase clears
/// the flags on its way out. The controller is idle in the end.
pub open spec fn erase_effect(device: Device, sector: u8) -> Device {
    Device {
        memory: if device.is_open() && !device.protected[sector as int] {
            erased(device.memory, sector)
        } else {
            device.memory
        },
        control: if device.is_open() {
            Control { sector_erase: true, sector, start: false, ..device.control }
        } else {
            device.control
        },
        flags: if is_write_protected(erase_status(device, sector)) {
            0
        } else {
            device.flags
        },
        busy: 0,
        ..device
    }
}

/// The status reads of one wait: one for each read that still shows the
/// busy flag, and the one that shows the controller idle.
pub open spec fn polling(busy: nat) -> Seq<Command> {
    Seq::new(busy + 1, |i: int| Command::ReadStatus)
}

/// The commands of a sector erase, in the order they are given: wait, select
/// the sector, start, wait, clear the start bit, read the status, and clear
/// the write-protection flag if the status shows it.
pub open spec fn erase_commands(device: Device, sector: u8) -> Seq<Command> {
    let busy: nat = if device.is_open() {
        device.latency
    } else {
        0
    };
    let last = if is_write_protected(erase_status(device, sector)) {
        seq![Command::ClearWriteProtect]
    } else {
        Seq::empty()
    };
    polling(device.busy) + seq![Command::SelectSector(sector), Command::Start] + polling(busy)
        + seq![Command::ClearStart, Command::ReadStatus] + last
}

/// The peripheral at the moment the first word of a write is stored: idle,
/// and with programming enabled if the controller is open.
pub open spec fn enabled(device: Device) -> Device {
    device.idled().after(Command::EnableProgramming)
}

/// The status that a write reads after its first word: the flags that were
/// set before, and the flag that the store raised, if any.
pub open spec fn write_status(device: Device, address: int) -> u32 {
    match enabled(device).store_fault(address) {
        Some(flag) => device.flags | flag,
        None => device.flags,
    }
}

/// What a write reports. Every word of a write meets the same conditions,
/// so a write fails at its first word or not at all; an empty write cannot
/// fail.
pub open spec fn write_result(device: Device, address: int, data: Seq<u8>) -> Result<(), u16> {
    if data.len() >= 4 && has_program_fault(write_status(device, address)) {
        Err(snapshot(write_status(device, address)))
    } else {
        Ok(())
    }
}

/// The peripheral after a write of `data` to `address`.
///
/// A write that succeeds programs all of `data` and disables programming.
/// A write that fails leaves programming enabled and clears the flags; its
/// first word is programmed all the same if the fault was an old one and
/// the store itself went well. An empty write only disables programming.
pub open spec fn write_effect(device: Device, address: int, data: Seq<u8>) -> Device {
    let at = address - FLASH_BASE;
    if data.len() < 4 {
        device.after(Command::DisableProgramming)
    } else if has_program_fault(write_status(device, address)) {
        Device {
            memory: if enabled(device).store_fault(address) is None {
                programmed(device.memory, at, data.subrange(0, 4))
            } else {
                device.memory
            },
            flags: 0,
            ..enabled(device)
        }
    } else {
        (Device { memory: programmed(device.memory, at, data), ..enabled(device) }).after(
            Command::DisableProgramming,
        )
    }
}

/// The commands that program chunk `index` of a write: wait, enable
/// programming, store the word, wait, read the status.
pub open spec fn chunk_commands(busy: nat, latency: nat, address: int, data: Seq<u8>, index: int)
    -> Seq<Command> {
    polling(busy) + seq![
        Command::EnableProgramming,
        Command::StoreWord { address: (address + 4 * index) as usize, value: word_at(data, index) },
    ] + polling(latency) + seq![Command::ReadStatus]
}

/// The commands that program the first `count` chunks of a write. Only the
/// first chunk can find the controller busy.
pub open spec fn chunks_commands(device: Device, address: int, data: Seq<u8>, count: int) -> Seq<
    Command,
>
    decreases count,
{
    if count <= 0 {
        Seq::empty()
    } else {
        let busy = if count == 1 {
            device.busy
        } else {
            0
        };
        chunks_commands(device, address, data, count - 1) + chunk_commands(
            busy,
            device.latency,
            address,
            data,
            count - 1,
        )
    }
}

/// The commands of a write, in the order they are given: chunk after
/// chunk, then programming is disabled; or the first chunk alone, then the
/// status register is cleared.
pub open spec fn write_commands(device: Device, address: int, data: Seq<u8>) -> Seq<Command> {
    if data.len() < 4 {
        seq![Command::DisableProgramming]
    } else if has_program_fault(write_status(device, address)) {
        chunks_commands(device, address, data, 1) + seq![Command::ClearStatus]
    } else {
        chunks_commands(device, address, data, data.len() as int / 4) + seq![
            Command::DisableProgramming,
        ]
    }
}

/// The bytes that a read of `length` bytes at `address` returns.
pub open spec fn contents(device: Device, address: int, length: int) -> Seq<u8> {
    device.memory.subrange(address - FLASH_BASE, address - FLASH_BASE + length)
}

} // verus!
