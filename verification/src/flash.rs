//! The flash controller bound to one sector.
//!
//! `Flash` runs the machines of `protocol` on a `Peripheral`, command by
//! command, until they finish. What that leaves behind is stated in the
//! terms of `outcome`.

use vstd::prelude::*;
use crate::device::Device;
use crate::erasing::{erase_history, erase_invariant, erase_rank, erase_step_is_sound};
use crate::outcome::{contents, erase_commands, erase_effect, erase_result, unlocked};
use crate::outcome::{write_commands, write_effect, write_result};
use crate::peripheral::Peripheral;
use crate::protocol::{erase_step, unlock_commands, unlock_sequence, write_step};
use crate::protocol::{ErasePhase, Step, WritePhase};
use crate::sector::{access_fits, address_for, sector_base, sectors_are_contiguous};
use crate::sector::{FLASH_BASE, FLASH_SIZE, SECTOR_COUNT};
use crate::waiting::polls;
use crate::writing::{write_history, write_invariant, write_rank, write_remaining};
use crate::writing::write_step_is_sound;

verus! {

/// A flash controller and the sector that it reads, erases and programs.
pub struct Flash {
    /// The peripheral that the controller drives.
    pub flash: Peripheral,
    /// The sector that the controller works on.
    pub sector: u8,
}

impl Flash {
    /// The state of the peripheral that the controller holds.
    pub open spec fn device(&self) -> Device {
        self.flash@
    }

    /// The sector is one of the map and the peripheral is in a valid state.
    pub open spec fn wf(&self) -> bool {
        &&& self.sector < SECTOR_COUNT
        &&& self.device().wf()
    }

    /// Binds a peripheral to a sector and opens it: both keys are written,
    /// then 32-bit programming is selected. Whether that opened the
    /// controller is not reported back.
    pub fn new(flash: Peripheral, sector: u8) -> (bound: Flash)
        requires
            flash@.wf(),
            sector < SECTOR_COUNT,
        ensures
            bound.wf(),
            bound.sector == sector,
            bound.device() == unlocked(flash@),
            bound.flash.history() == flash.history() + unlock_sequence(),
    {
        let ghost before = flash.history();
        let mut flash = flash;
        let commands = unlock_commands();
        flash.perform(commands[0]);
        flash.perform(commands[1]);
        flash.perform(commands[2]);
        assert(flash.history() =~= before + unlock_sequence());
        Flash { flash, sector }
    }

    /// Absolute address of the byte at `offset` in the sector, for an
    /// access of `access_size` bytes that stays inside the sector.
    pub fn get_address(&self, offset: usize, access_size: usize) -> (address: usize)
        requires
            access_fits(self.sector, offset as int, access_size as int),
        ensures
            address == sector_base(self.sector) + offset,
    {
        address_for(self.sector, offset, access_size)
    }

    /// Erases the whole sector.
    ///
    /// Fails with the status bits if the status shows the write-protection
    /// flag when the erase is over; the flags are cleared then.
    pub fn erase(&mut self) -> (result: Result<(), u16>)
        requires
            old(self).wf(),
        ensures
            final(self).wf(),
            final(self).sector == old(self).sector,
            final(self).device() == erase_effect(old(self).device(), old(self).sector),
            final(self).flash.history() == old(self).flash.history() + erase_commands(
                old(self).device(),
                old(self).sector,
            ),
            result == erase_result(old(self).device(), old(self).sector),
    {
        let mut phase = ErasePhase::Idle;
        let mut reply: Option<u32> = None;
        loop
            invariant
                old(self).wf(),
                self.wf(),
                self.sector == old(self).sector,
                erase_invariant(old(self).device(), self.sector, phase, reply, self.device()),
                self.flash.history() == old(self).flash.history() + erase_history(
                    old(self).device(),
                    self.sector,
                    phase,
                    reply,
                    self.device(),
                ),
            decreases erase_rank(phase), polls(reply, self.device()),
        {
            let (next, step) = erase_step(self.sector, phase, reply);
            proof {
                erase_step_is_sound(
                    old(self).device(),
                    self.sector,
                    phase,
                    reply,
                    self.device(),
                );
            }
            match step {
                Step::Issue(command) => {
                    reply = self.flash.perform(command);
                    phase = next;
                },
                Step::Finish(result) => {
                    return result;
                },
            }
        }
    }

    /// Programs `data` into the sector from `offset` on, a word of four
    /// bytes at a time, lowest address first.
    ///
    /// Fails with the status bits at the first word after which the status
    /// shows a fault; the flags are cleared then, programming stays
    /// enabled, and what was programmed stays programmed.
    pub fn write(&mut self, offset: usize, data: &[u8]) -> (result: Result<(), u16>)
        requires
            old(self).wf(),
            data@.len() % 4 == 0,
            access_fits(old(self).sector, offset as int, data@.len() as int),
        ensures
            final(self).wf(),
            final(self).sector == old(self).sector,
            final(self).device() == write_effect(
                old(self).device(),
                sector_base(old(self).sector) + offset,
                data@,
            ),
            final(self).flash.history() == old(self).flash.history() + write_commands(
                old(self).device(),
                sector_base(old(self).sector) + offset,
                data@,
            ),
            result == write_result(
                old(self).device(),
                sector_base(old(self).sector) + offset,
                data@,
            ),
    {
        let address: usize = address_for(self.sector, offset, data.len());
        let ghost chunks = data@.len() as int / 4;
        proof {
            sectors_are_contiguous(self.sector);
        }
        let mut phase = WritePhase::Idle;
        let mut reply: Option<u32> = None;
        loop
            invariant
                old(self).wf(),
                self.wf(),
                self.sector == old(self).sector,
                data@.len() % 4 == 0,
                access_fits(self.sector, offset as int, data@.len() as int),
                address == sector_base(self.sector) + offset,
                address + data@.len() <= usize::MAX,
                chunks == data@.len() as int / 4,
                phase.within(chunks),
                write_invariant(
                    old(self).device(),
                    address as int,
                    data@,
                    phase,
                    reply,
                    self.device(),
                ),
                self.flash.history() == old(self).flash.history() + write_history(
                    old(self).device(),
                    address as int,
                    data@,
                    phase,
                    reply,
                    self.device(),
                ),
            decreases write_remaining(phase, chunks), write_rank(phase), polls(reply, self.device()),
        {
            let (next, step) = write_step(address, data, phase, reply);
            proof {
                write_step_is_sound(
                    old(self).device(),
                    self.sector,
                    offset as int,
                    data@,
                    phase,
                    reply,
                    self.device(),
                );
            }
            match step {
                Step::Issue(command) => {
                    reply = self.flash.perform(command);
                    phase = next;
                },
                Step::Finish(result) => {
                    return result;
                },
            }
        }
    }

    /// Reads `length` bytes of the sector from `offset` on. Reading asks
    /// the controller nothing and cannot fail.
    pub fn read(&self, offset: usize, length: usize) -> (bytes: Vec<u8>)
        requires
            self.wf(),
            access_fits(self.sector, offset as int, length as int),
        ensures
            bytes@ == contents(self.device(), sector_base(self.sector) + offset, length as int),
    {
        let address: usize = self.get_address(offset, length);
        proof {
            sectors_are_contiguous(self.sector);
        }
        let mut bytes: Vec<u8> = Vec::with_capacity(length);
        let mut index: usize = 0;
        while index < length
            invariant
                self.wf(),
                index <= length,
                FLASH_BASE <= address,
                address + length < FLASH_BASE + FLASH_SIZE,
                bytes@ == contents(self.device(), address as int, index as int),
            decreases length - index,
        {
            bytes.push(self.flash.load(address + index));
            index += 1;
            assert(bytes@ =~= contents(self.device(), address as int, index as int));
        }
        bytes
    }

    /// Fills `destination` with the bytes of the sector from `offset` on.
    pub fn read_into(&self, offset: usize, destination: &mut [u8])
        requires
            self.wf(),
            access_fits(self.sector, offset as int, old(destination)@.len() as int),
        ensures
            final(destination)@ == contents(
                self.device(),
                sector_base(self.sector) + offset,
                old(destination)@.len() as int,
            ),
    {
        let length: usize = destination.len();
        let address: usize = self.get_address(offset, length);
        proof {
            sectors_are_contiguous(self.sector);
        }
        let mut index: usize = 0;
        while index < length
            invariant
                self.wf(),
                index <= length,
                length == destination@.len(),
                FLASH_BASE <= address,
                address + length < FLASH_BASE + FLASH_SIZE,
                destination@.subrange(0, index as int) == contents(
                    self.device(),
                    address as int,
                    index as int,
                ),
            decreases length - index,
        {
            destination[index] = self.flash.load(address + index);
            index += 1;
            assert(destination@.subrange(0, index as int) =~= contents(
                self.device(),
                address as int,
                index as int,
            ));
        }
        assert(destination@ =~= destination@.subrange(0, length as int));
    }
}

} // verus!
