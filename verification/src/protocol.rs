//! The command sequences of the driver, as state machines.
//!
//! Nothing here touches a register. A host asks a machine for its next
//! step, carries the command out on the peripheral, and comes back with the
//! reply: the status word after `ReadStatus`, nothing after any other
//! command. The machine decides what follows, and in the end what the
//! operation reports.
//!
//! Erasing and programming share one shape: wait until the controller is
//! idle, set the operation up, trigger it, wait again, read the status and
//! look for faults.

use vstd::prelude::*;
use crate::sector::SECTOR_COUNT;
use crate::status::{busy, capture, program_fault, write_protected};
use crate::status::{has_program_fault, is_busy, is_write_protected, snapshot};
use crate::status::snapshot_keeps_faults;

verus! {

/// First word of the unlock sequence.
pub const KEY1: u32 = 0x4567_0123;

/// Second word of the unlock sequence.
pub const KEY2: u32 = 0xCDEF_89AB;

/// What `ClearStatus` writes to the status register.
pub const ALL_FLAGS: u32 = 0x0000_FFFF;

/// One access to the flash controller or to the flash array.
#[derive(Clone, Copy, Debug, PartialEq, Eq, Structural)]
pub enum Command {
    /// Write a word to the key register.
    WriteKey(u32),
    /// Set the programming width in the control register to 32 bits.
    SelectWordWidth,
    /// Read the status register and reply with it.
    ReadStatus,
    /// Set the sector-erase bit and the sector number in the control register.
    SelectSector(u8),
    /// Set the start bit in the control register.
    Start,
    /// Clear the start bit in the control register.
    ClearStart,
    /// Write the status register back with the write-protection flag set,
    /// which clears that flag and every other flag that was read as set.
    ClearWriteProtect,
    /// Set the programming bit in the control register.
    EnableProgramming,
    /// Store a 32-bit word to the flash array.
    StoreWord { address: usize, value: u32 },
    /// Write `ALL_FLAGS` to the status register, which clears every flag.
    ClearStatus,
    /// Clear the programming bit in the control register.
    DisableProgramming,
}

/// What a machine wants next: a command carried out, or nothing more.
#[derive(Clone, Copy, Debug, PartialEq, Eq)]
pub enum Step {
    /// Carry this command out and come back with its reply.
    Issue(Command),
    /// The operation is over, with this result.
    Finish(Result<(), u16>),
}

/// The reply is a status word without the busy flag.
pub open spec fn reports_idle(reply: Option<u32>) -> bool {
    match reply {
        Some(status) => !is_busy(status),
        None => false,
    }
}

/// Tests whether the reply is a status word without the busy flag.
pub fn idle(reply: Option<u32>) -> (yes: bool)
    ensures
        yes == reports_idle(reply),
{
    match reply {
        Some(status) => !busy(status),
        None => false,
    }
}

/// The three commands that open the controller for erasing and programming:
/// both keys in order, then the programming width.
pub open spec fn unlock_sequence() -> Seq<Command> {
    seq![Command::WriteKey(KEY1), Command::WriteKey(KEY2), Command::SelectWordWidth]
}

/// Returns the commands that open the controller.
pub fn unlock_commands() -> (commands: [Command; 3])
    ensures
        commands@ == unlock_sequence(),
{
    let commands = [Command::WriteKey(KEY1), Command::WriteKey(KEY2), Command::SelectWordWidth];
    assert(commands@ =~= unlock_sequence());
    commands
}

/// Where a sector erase stands.
#[derive(Clone, Copy, Debug, PartialEq, Eq)]
pub enum ErasePhase {
    /// Nothing was issued yet.
    Idle,
    /// Polling until an earlier operation is over.
    Busy,
    /// The sector was selected.
    Selected,
    /// The erase was triggered.
    Started,
    /// Polling until the erase is over.
    Operating,
    /// The start bit was cleared.
    Stopped,
    /// The status was asked for, to look for a fault.
    Checking,
    /// A write-protection fault was seen and is being cleared.
    Error(u16),
    /// Over, with a fault.
    Failed(u16),
    /// Over, without a fault.
    Done,
}

impl ErasePhase {
    /// The bits that a phase holds for the report show the
    /// write-protection flag.
    pub open spec fn sound(self) -> bool {
        match self {
            ErasePhase::Error(bits) => is_write_protected(bits as u32),
            ErasePhase::Failed(bits) => is_write_protected(bits as u32),
            _ => true,
        }
    }
}

/// The erase machine: from a phase and the reply to the last command to the
/// next phase and step.
///
/// A phase that polls stays where it is and asks for the status again until
/// a reply without the busy flag arrives. A phase that needs no reply
/// ignores the one it gets.
pub open spec fn erase_next(sector: u8, phase: ErasePhase, reply: Option<u32>) -> (
    ErasePhase,
    Step,
) {
    match phase {
        ErasePhase::Idle => (ErasePhase::Busy, Step::Issue(Command::ReadStatus)),
        ErasePhase::Busy => if reports_idle(reply) {
            (ErasePhase::Selected, Step::Issue(Command::SelectSector(sector)))
        } else {
            (ErasePhase::Busy, Step::Issue(Command::ReadStatus))
        },
        ErasePhase::Selected => (ErasePhase::Started, Step::Issue(Command::Start)),
        ErasePhase::Started => (ErasePhase::Operating, Step::Issue(Command::ReadStatus)),
        ErasePhase::Operating => if reports_idle(reply) {
            (ErasePhase::Stopped, Step::Issue(Command::ClearStart))
        } else {
            (ErasePhase::Operating, Step::Issue(Command::ReadStatus))
        },
        ErasePhase::Stopped => (ErasePhase::Checking, Step::Issue(Command::ReadStatus)),
        ErasePhase::Checking => match reply {
            Some(status) => if is_write_protected(status) {
                (ErasePhase::Error(snapshot(status)), Step::Issue(Command::ClearWriteProtect))
            } else {
                (ErasePhase::Done, Step::Finish(Ok(())))
            },
            None => (ErasePhase::Checking, Step::Issue(Command::ReadStatus)),
        },
        ErasePhase::Error(bits) => (ErasePhase::Failed(bits), Step::Finish(Err(bits))),
        ErasePhase::Failed(bits) => (ErasePhase::Failed(bits), Step::Finish(Err(bits))),
        ErasePhase::Done => (ErasePhase::Done, Step::Finish(Ok(()))),
    }
}

/// Advances a sector erase by one step.
pub fn erase_step(sector: u8, phase: ErasePhase, reply: Option<u32>) -> (next: (ErasePhase, Step))
    requires
        sector < SECTOR_COUNT,
    ensures
        next == erase_next(sector, phase, reply),
{
    match phase {
        ErasePhase::Idle => (ErasePhase::Busy, Step::Issue(Command::ReadStatus)),
        ErasePhase::Busy => {
            if idle(reply) {
                (ErasePhase::Selected, Step::Issue(Command::SelectSector(sector)))
            } else {
                (ErasePhase::Busy, Step::Issue(Command::ReadStatus))
            }
        },
        ErasePhase::Selected => (ErasePhase::Started, Step::Issue(Command::Start)),
        ErasePhase::Started => (ErasePhase::Operating, Step::Issue(Command::ReadStatus)),
        ErasePhase::Operating => {
            if idle(reply) {
                (ErasePhase::Stopped, Step::Issue(Command::ClearStart))
            } else {
                (ErasePhase::Operating, Step::Issue(Command::ReadStatus))
            }
        },
        ErasePhase::Stopped => (ErasePhase::Checking, Step::Issue(Command::ReadStatus)),
        ErasePhase::Checking => match reply {
            Some(status) => {
                if write_protected(status) {
                    (ErasePhase::Error(capture(status)), Step::Issue(Command::ClearWriteProtect))
                } else {
                    (ErasePhase::Done, Step::Finish(Ok(())))
                }
            },
            None => (ErasePhase::Checking, Step::Issue(Command::ReadStatus)),
        },
        ErasePhase::Error(bits) => (ErasePhase::Failed(bits), Step::Finish(Err(bits))),
        ErasePhase::Failed(bits) => (ErasePhase::Failed(bits), Step::Finish(Err(bits))),
        ErasePhase::Done => (ErasePhase::Done, Step::Finish(Ok(()))),
    }
}

/// Whatever the peripheral replies, an erase that began at `Idle` selects
/// no sector but its own and reports no bits without the write-protection
/// flag.
pub proof fn erase_stays_on_course(sector: u8, phase: ErasePhase, reply: Option<u32>)
    requires
        phase.sound(),
    ensures
        ErasePhase::Idle.sound(),
        erase_next(sector, phase, reply).0.sound(),
        match erase_next(sector, phase, reply).1 {
            Step::Issue(Command::SelectSector(selected)) => selected == sector,
            Step::Issue(Command::StoreWord { .. }) => false,
            Step::Finish(Err(bits)) => is_write_protected(bits as u32),
            _ => true,
        },
{
    if let Some(status) = reply {
        snapshot_keeps_faults(status);
    }
}

/// The 32-bit word whose bytes, lowest address first, are `b0` to `b3`.
pub open spec fn pack(b0: u8, b1: u8, b2: u8, b3: u8) -> u32 {
    (b0 as u32) | ((b1 as u32) << 8) | ((b2 as u32) << 16) | ((b3 as u32) << 24)
}

/// The word that chunk `index` of `data` is stored as.
pub open spec fn word_at(data: Seq<u8>, index: int) -> u32
    recommends
        0 <= index,
        4 * index + 4 <= data.len(),
{
    pack(data[4 * index], data[4 * index + 1], data[4 * index + 2], data[4 * index + 3])
}

/// Where a write stands. The number is that of the four-byte chunk at hand.
#[derive(Clone, Copy, Debug, PartialEq, Eq)]
pub enum WritePhase {
    /// Nothing was issued yet.
    Idle,
    /// Polling until an earlier operation is over.
    Busy(usize),
    /// Programming was enabled.
    Enabled(usize),
    /// The word was stored.
    Stored(usize),
    /// Polling until the word is programmed.
    Operating(usize),
    /// The status was asked for, to look for a fault.
    Checking(usize),
    /// A fault was seen and the status register is being cleared.
    Error(u16),
    /// All chunks are programmed and programming is being disabled.
    Disabling,
    /// Over, with a fault.
    Failed(u16),
    /// Over, without a fault.
    Done,
}

impl WritePhase {
    /// The bits that a phase holds for the report show one of the four
    /// faults of a store.
    pub open spec fn sound(self) -> bool {
        match self {
            WritePhase::Error(bits) => has_program_fault(bits as u32),
            WritePhase::Failed(bits) => has_program_fault(bits as u32),
            _ => true,
        }
    }

    /// The chunk at hand is one of `chunks`.
    pub open spec fn within(self, chunks: int) -> bool {
        match self {
            WritePhase::Busy(index) => index < chunks,
            WritePhase::Enabled(index) => index < chunks,
            WritePhase::Stored(index) => index < chunks,
            WritePhase::Operating(index) => index < chunks,
            WritePhase::Checking(index) => index < chunks,
            _ => true,
        }
    }
}

/// The write machine: from a phase and the reply to the last command to the
/// next phase and step, for `data` going to `address`.
///
/// Each chunk is waited for, enabled, stored, waited for again and checked.
/// The first status with a fault ends the write: the status register is
/// cleared and the fault reported, with programming left enabled. After the
/// last chunk programming is disabled.
pub open spec fn write_next(address: int, data: Seq<u8>, phase: WritePhase, reply: Option<u32>) -> (
    WritePhase,
    Step,
) {
    let chunks = data.len() / 4;
    match phase {
        WritePhase::Idle => if chunks == 0 {
            (WritePhase::Disabling, Step::Issue(Command::DisableProgramming))
        } else {
            (WritePhase::Busy(0), Step::Issue(Command::ReadStatus))
        },
        WritePhase::Busy(index) => if reports_idle(reply) {
            (WritePhase::Enabled(index), Step::Issue(Command::EnableProgramming))
        } else {
            (WritePhase::Busy(index), Step::Issue(Command::ReadStatus))
        },
        WritePhase::Enabled(index) => (
            WritePhase::Stored(index),
            Step::Issue(
                Command::StoreWord {
                    address: (address + 4 * index) as usize,
                    value: word_at(data, index as int),
                },
            ),
        ),
        WritePhase::Stored(index) => (
            WritePhase::Operating(index),
            Step::Issue(Command::ReadStatus),
        ),
        WritePhase::Operating(index) => if reports_idle(reply) {
            (WritePhase::Checking(index), Step::Issue(Command::ReadStatus))
        } else {
            (WritePhase::Operating(index), Step::Issue(Command::ReadStatus))
        },
        WritePhase::Checking(index) => match reply {
            Some(status) => if has_program_fault(status) {
                (WritePhase::Error(snapshot(status)), Step::Issue(Command::ClearStatus))
            } else if index + 1 < chunks {
                (WritePhase::Busy((index + 1) as usize), Step::Issue(Command::ReadStatus))
            } else {
                (WritePhase::Disabling, Step::Issue(Command::DisableProgramming))
            },
            None => (WritePhase::Checking(index), Step::Issue(Command::ReadStatus)),
        },
        WritePhase::Error(bits) => (WritePhase::Failed(bits), Step::Finish(Err(bits))),
        WritePhase::Disabling => (WritePhase::Done, Step::Finish(Ok(()))),
        WritePhase::Failed(bits) => (WritePhase::Failed(bits), Step::Finish(Err(bits))),
        WritePhase::Done => (WritePhase::Done, Step::Finish(Ok(()))),
    }
}

/// Assembles the word that chunk `index` of `data` is stored as.
pub fn chunk(data: &[u8], index: usize) -> (word: u32)
    requires
        4 * index + 4 <= data.len(),
    ensures
        word == word_at(data@, index as int),
{
    let at: usize = 4 * index;
    (data[at] as u32) | ((data[at + 1] as u32) << 8) | ((data[at + 2] as u32) << 16) | ((data[at
        + 3] as u32) << 24)
}

/// Advances a write by one step.
pub fn write_step(address: usize, data: &[u8], phase: WritePhase, reply: Option<u32>) -> (next: (
    WritePhase,
    Step,
))
    requires
        data@.len() % 4 == 0,
        address + data@.len() <= usize::MAX,
        phase.within(data@.len() as int / 4),
    ensures
        next == write_next(address as int, data@, phase, reply),
        next.0.within(data@.len() as int / 4),
{
    let chunks: usize = data.len() / 4;
    match phase {
        WritePhase::Idle => {
            if chunks == 0 {
                (WritePhase::Disabling, Step::Issue(Command::DisableProgramming))
            } else {
                (WritePhase::Busy(0), Step::Issue(Command::ReadStatus))
            }
        },
        WritePhase::Busy(index) => {
            if idle(reply) {
                (WritePhase::Enabled(index), Step::Issue(Command::EnableProgramming))
            } else {
                (WritePhase::Busy(index), Step::Issue(Command::ReadStatus))
            }
        },
        WritePhase::Enabled(index) => {
            let value: u32 = chunk(data, index);
            (
                WritePhase::Stored(index),
                Step::Issue(Command::StoreWord { address: address + 4 * index, value }),
            )
        },
        WritePhase::Stored(index) => (
            WritePhase::Operating(index),
            Step::Issue(Command::ReadStatus),
        ),
        WritePhase::Operating(index) => {
            if idle(reply) {
                (WritePhase::Checking(index), Step::Issue(Command::ReadStatus))
            } else {
                (WritePhase::Operating(index), Step::Issue(Command::ReadStatus))
            }
        },
        WritePhase::Checking(index) => match reply {
            Some(status) => {
                if program_fault(status) {
                    (WritePhase::Error(capture(status)), Step::Issue(Command::ClearStatus))
                } else if index + 1 < chunks {
                    (WritePhase::Busy(index + 1), Step::Issue(Command::ReadStatus))
                } else {
                    (WritePhase::Disabling, Step::Issue(Command::DisableProgramming))
                }
            },
            None => (WritePhase::Checking(index), Step::Issue(Command::ReadStatus)),
        },
        WritePhase::Error(bits) => (WritePhase::Failed(bits), Step::Finish(Err(bits))),
        WritePhase::Disabling => (WritePhase::Done, Step::Finish(Ok(()))),
        WritePhase::Failed(bits) => (WritePhase::Failed(bits), Step::Finish(Err(bits))),
        WritePhase::Done => (WritePhase::Done, Step::Finish(Ok(()))),
    }
}

/// Whatever the peripheral replies, a write that began at `Idle` stores
/// only inside the bytes it was given, starts no erase, and reports no bits
/// without a fault of a store.
pub proof fn write_stays_on_course(
    address: int,
    data: Seq<u8>,
    phase: WritePhase,
    reply: Option<u32>,
)
    requires
        data.len() % 4 == 0,
        0 <= address,
        address + data.len() <= usize::MAX,
        phase.within(data.len() as int / 4),
        phase.sound(),
    ensures
        WritePhase::Idle.sound(),
        WritePhase::Idle.within(data.len() as int / 4),
        write_next(address, data, phase, reply).0.within(data.len() as int / 4),
        write_next(address, data, phase, reply).0.sound(),
        match write_next(address, data, phase, reply).1 {
            Step::Issue(Command::StoreWord { address: target, value }) => {
                &&& address <= target
                &&& target + 4 <= address + data.len()
                &&& (target - address) % 4 == 0
            },
            Step::Issue(Command::Start) => false,
            Step::Issue(Command::SelectSector(_)) => false,
            Step::Finish(Err(bits)) => has_program_fault(bits as u32),
            _ => true,
        },
{
    if let Some(status) = reply {
        snapshot_keeps_faults(status);
    }
}

} // verus!
