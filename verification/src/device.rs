//! A model of the flash peripheral.
//!
//! `Device` is the state of the controller and of the flash array, as far
//! as the driver can tell one state from another, and `Device::after` says
//! what each command does to it. The model is deterministic and covers
//! what the driver relies on:
//!
//! * the control register takes writes only once both keys were written in
//!   order; a wrong key shuts it until reset,
//! * an erase sets every byte of the selected sector to `0xFF`,
//! * a store can only take bits away: each byte becomes the old byte ANDed
//!   with the new one,
//! * a protected sector is neither erased nor programmed, and the attempt
//!   raises the write-protection flag,
//! * a store that the control register is not set up for, or that is not
//!   word-aligned, raises its flag and leaves the array alone,
//! * flags stay set until a one is written to them,
//! * after an operation the busy flag reads as set for `latency` reads of
//!   the status register.
//!
//! What an operation does to the array shows at once; only the busy flag
//! lags behind.

use vstd::prelude::*;
use crate::protocol::{pack, word_at, Command, ALL_FLAGS, KEY1, KEY2};
use crate::sector::{sector_at, sector_base, sector_size, FLASH_BASE, FLASH_SIZE, SECTOR_COUNT};
use crate::status::{has_program_fault, is_busy, is_write_protected, snapshot};
use crate::status::{ALIGNMENT, BUSY, FAULTS, PARALLELISM, SEQUENCE, WRITE_PROTECT};

verus! {

/// The value of the width field that selects 32-bit programming.
pub const WORD_WIDTH: u8 = 2;

/// The value of an erased byte.
pub const ERASED: u8 = 0xFF;

/// How far the unlock sequence has come.
#[derive(Clone, Copy, Debug, PartialEq, Eq, Structural)]
pub enum Lock {
    /// No key was written since reset.
    Locked,
    /// The first key was written.
    HalfOpen,
    /// Both keys were written: the control register takes writes.
    Open,
    /// A wrong key was written: the control register is shut until reset.
    Jammed,
}

/// The fields of the control register that the driver writes.
#[derive(Clone, Copy, Debug, PartialEq, Eq, Structural)]
pub struct Control {
    /// Programming is enabled.
    pub program: bool,
    /// Sector erase is selected.
    pub sector_erase: bool,
    /// The sector number, a field of four bits.
    pub sector: u8,
    /// The start bit.
    pub start: bool,
    /// The programming width, a field of two bits.
    pub width: u8,
}

impl Control {
    /// The control register after reset.
    pub open spec fn reset() -> Control {
        Control { program: false, sector_erase: false, sector: 0, start: false, width: 0 }
    }
}

/// The state of the peripheral.
pub struct Device {
    /// The flash array, byte by byte from `FLASH_BASE`.
    pub memory: Seq<u8>,
    /// The state of the unlock sequence.
    pub lock: Lock,
    /// The control register.
    pub control: Control,
    /// The fault flags of the status register, at their places in it.
    pub flags: u32,
    /// How many more reads of the status register show the busy flag.
    pub busy: nat,
    /// How many reads of the status register an operation stays busy for.
    pub latency: nat,
    /// For each sector, whether it is write-protected.
    pub protected: Seq<bool>,
}

/// The flags that are left of `flags` after `written` went to the status
/// register: a flag is cleared by writing a one to it.
pub open spec fn cleared(flags: u32, written: u32) -> u32 {
    flags & !written
}

/// One byte of a word, counted from the lowest address.
pub open spec fn byte_of(word: u32, index: int) -> u8 {
    if index == 0 {
        word as u8
    } else if index == 1 {
        (word >> 8) as u8
    } else if index == 2 {
        (word >> 16) as u8
    } else {
        (word >> 24) as u8
    }
}

/// The array after the sector was erased.
pub open spec fn erased(memory: Seq<u8>, sector: u8) -> Seq<u8> {
    Seq::new(
        memory.len(),
        |i: int|
            if sector_base(sector) <= FLASH_BASE + i < sector_base(sector) + sector_size(sector) {
                ERASED
            } else {
                memory[i]
            },
    )
}

/// The array after `data` was programmed from index `at` on: every byte
/// under the data keeps only the bits that the data has too.
pub open spec fn programmed(memory: Seq<u8>, at: int, data: Seq<u8>) -> Seq<u8> {
    Seq::new(
        memory.len(),
        |i: int|
            if at <= i < at + data.len() {
                memory[i] & data[i - at]
            } else {
                memory[i]
            },
    )
}

/// The array after one word was programmed at index `at`.
pub open spec fn programmed_word(memory: Seq<u8>, at: int, word: u32) -> Seq<u8> {
    Seq::new(
        memory.len(),
        |i: int|
            if at <= i < at + 4 {
                memory[i] & byte_of(word, i - at)
            } else {
                memory[i]
            },
    )
}

impl Device {
    /// The state is one that a peripheral can be in: the array and the
    /// protection cover the whole map, only fault flags are set, the fields
    /// of the control register are in range, and a control register that
    /// never took a write is as reset left it.
    pub open spec fn wf(self) -> bool {
        &&& self.memory.len() == FLASH_SIZE
        &&& self.protected.len() == SECTOR_COUNT
        &&& self.flags & !FAULTS == 0
        &&& self.control.sector < 16
        &&& self.control.width < 4
        &&& self.is_open() || self.control == Control::reset()
    }

    /// A peripheral after reset, with an erased array and no protection.
    pub open spec fn fresh(latency: nat) -> Device {
        Device {
            memory: Seq::new(FLASH_SIZE as nat, |i: int| ERASED),
            lock: Lock::Locked,
            control: Control::reset(),
            flags: 0,
            busy: 0,
            latency,
            protected: Seq::new(SECTOR_COUNT as nat, |i: int| false),
        }
    }

    /// The control register takes writes.
    pub open spec fn is_open(self) -> bool {
        self.lock == Lock::Open
    }

    /// The controller is open and set up for 32-bit programming.
    pub open spec fn ready(self) -> bool {
        self.is_open() && self.control.width == WORD_WIDTH
    }

    /// The status register as a read would show it.
    pub open spec fn status(self) -> u32 {
        if self.busy > 0 {
            self.flags | BUSY
        } else {
            self.flags
        }
    }

    /// The same state with the controller idle.
    pub open spec fn idled(self) -> Device {
        Device { busy: 0, ..self }
    }

    /// The same state with another control register, if it takes writes.
    pub open spec fn controlled(self, control: Control) -> Device {
        if self.is_open() {
            Device { control, ..self }
        } else {
            self
        }
    }

    /// The state after a word went to the key register. Keys written to an
    /// open controller change nothing.
    pub open spec fn keyed(self, key: u32) -> Device {
        let lock = match self.lock {
            Lock::Locked => if key == KEY1 {
                Lock::HalfOpen
            } else {
                Lock::Jammed
            },
            Lock::HalfOpen => if key == KEY2 {
                Lock::Open
            } else {
                Lock::Jammed
            },
            Lock::Open => Lock::Open,
            Lock::Jammed => Lock::Jammed,
        };
        Device { lock, ..self }
    }

    /// The state after the start bit was set. With sector erase selected
    /// and a sector of the map, the sector is erased, or the
    /// write-protection flag raised if it is protected.
    pub open spec fn started(self) -> Device {
        let sector = self.control.sector;
        if !self.is_open() {
            self
        } else if !self.control.sector_erase || sector >= SECTOR_COUNT {
            Device { control: Control { start: true, ..self.control }, ..self }
        } else if self.protected[sector as int] {
            Device {
                control: Control { start: true, ..self.control },
                flags: self.flags | WRITE_PROTECT,
                busy: self.latency,
                ..self
            }
        } else {
            Device {
                control: Control { start: true, ..self.control },
                memory: erased(self.memory, sector),
                busy: self.latency,
                ..self
            }
        }
    }

    /// A word store to `address` reaches the flash array.
    pub open spec fn decodes(self, address: int) -> bool {
        FLASH_BASE <= address && address + 4 <= FLASH_BASE + FLASH_SIZE
    }

    /// The flag that a word store to `address` raises, if it raises one.
    pub open spec fn store_fault(self, address: int) -> Option<u32>
        recommends
            self.decodes(address),
    {
        if !self.control.program {
            Some(SEQUENCE)
        } else if self.control.width != WORD_WIDTH {
            Some(PARALLELISM)
        } else if address % 4 != 0 {
            Some(ALIGNMENT)
        } else if self.protected[sector_at(address) as int] {
            Some(WRITE_PROTECT)
        } else {
            None
        }
    }

    /// The state after a word store. A store outside the array is none of
    /// the peripheral's business.
    pub open spec fn stored(self, address: int, value: u32) -> Device {
        if !self.decodes(address) {
            self
        } else {
            match self.store_fault(address) {
                Some(flag) => Device { flags: self.flags | flag, busy: self.latency, ..self },
                None => Device {
                    memory: programmed_word(self.memory, address - FLASH_BASE, value),
                    busy: self.latency,
                    ..self
                },
            }
        }
    }

    /// The state after a command.
    pub open spec fn after(self, command: Command) -> Device {
        match command {
            Command::WriteKey(key) => self.keyed(key),
            Command::SelectWordWidth => self.controlled(
                Control { width: WORD_WIDTH, ..self.control },
            ),
            Command::ReadStatus => Device {
                busy: if self.busy > 0 {
                    (self.busy - 1) as nat
                } else {
                    0
                },
                ..self
            },
            Command::SelectSector(sector) => self.controlled(
                Control { sector_erase: true, sector: sector % 16, ..self.control },
            ),
            Command::Start => self.started(),
            Command::ClearStart => self.controlled(Control { start: false, ..self.control }),
            Command::ClearWriteProtect => Device {
                flags: cleared(self.flags, self.flags | WRITE_PROTECT),
                ..self
            },
            Command::EnableProgramming => self.controlled(
                Control { program: true, ..self.control },
            ),
            Command::StoreWord { address, value } => self.stored(address as int, value),
            Command::ClearStatus => Device { flags: cleared(self.flags, ALL_FLAGS), ..self },
            Command::DisableProgramming => self.controlled(
                Control { program: false, ..self.control },
            ),
        }
    }

    /// What the peripheral answers to a command.
    pub open spec fn reply(self, command: Command) -> Option<u32> {
        match command {
            Command::ReadStatus => Some(self.status()),
            _ => None,
        }
    }
}

/// The fault flags sit under `FAULTS`, and raising one keeps it so.
pub proof fn faults_stay_in_place(flags: u32)
    requires
        flags & !FAULTS == 0,
    ensures
        (flags | WRITE_PROTECT) & !FAULTS == 0,
        (flags | ALIGNMENT) & !FAULTS == 0,
        (flags | PARALLELISM) & !FAULTS == 0,
        (flags | SEQUENCE) & !FAULTS == 0,
        flags <= FAULTS,
{
    assert(flags & !0xF0u32 == 0 ==> (flags | 0x10u32) & !0xF0u32 == 0 && (flags | 0x20u32)
        & !0xF0u32 == 0 && (flags | 0x40u32) & !0xF0u32 == 0 && (flags | 0x80u32) & !0xF0u32 == 0
        && flags <= 0xF0u32) by (bit_vector);
}

/// Writing ones to the status register clears the flags under them.
pub proof fn clearing_leaves_nothing(flags: u32)
    requires
        flags & !FAULTS == 0,
    ensures
        cleared(flags, ALL_FLAGS) == 0,
        cleared(flags, flags | WRITE_PROTECT) == 0,
        0u32 & !FAULTS == 0,
{
    assert(flags & !0xF0u32 == 0 ==> flags & !0xFFFFu32 == 0) by (bit_vector);
    assert(flags & !(flags | 0x10u32) == 0) by (bit_vector);
    assert(0u32 & !0xF0u32 == 0) by (bit_vector);
}

/// The busy flag and the fault flags do not get in each other's way: a
/// status word shows the busy flag exactly when it was put there, and the
/// faults and the reported bits are the same with and without it.
pub proof fn busy_flag_is_apart(flags: u32)
    requires
        flags & !FAULTS == 0,
    ensures
        !is_busy(flags),
        is_busy(flags | BUSY),
        is_write_protected(flags | BUSY) == is_write_protected(flags),
        has_program_fault(flags | BUSY) == has_program_fault(flags),
        snapshot(flags | BUSY) == snapshot(flags),
{
    assert(flags & !0xF0u32 == 0 ==> flags & 0x1_0000u32 == 0) by (bit_vector);
    assert((flags | 0x1_0000u32) & 0x1_0000u32 != 0) by (bit_vector);
    assert((flags | 0x1_0000u32) & 0x10u32 == flags & 0x10u32) by (bit_vector);
    assert((flags | 0x1_0000u32) & 0x20u32 == flags & 0x20u32) by (bit_vector);
    assert((flags | 0x1_0000u32) & 0x40u32 == flags & 0x40u32) by (bit_vector);
    assert((flags | 0x1_0000u32) & 0x80u32 == flags & 0x80u32) by (bit_vector);
    assert((flags | 0x1_0000u32) as u16 == flags as u16) by (bit_vector);
}

/// A flag that was raised shows in the status, and a status without any
/// fault flag is zero.
pub proof fn raised_flags_show(flags: u32)
    requires
        flags & !FAULTS == 0,
    ensures
        is_write_protected(flags | WRITE_PROTECT),
        has_program_fault(flags | WRITE_PROTECT),
        has_program_fault(flags | ALIGNMENT),
        has_program_fault(flags | PARALLELISM),
        has_program_fault(flags | SEQUENCE),
        has_program_fault(flags) == (flags != 0),
{
    assert((flags | 0x10u32) & 0x10u32 != 0) by (bit_vector);
    assert((flags | 0x20u32) & 0x20u32 != 0) by (bit_vector);
    assert((flags | 0x40u32) & 0x40u32 != 0) by (bit_vector);
    assert((flags | 0x80u32) & 0x80u32 != 0) by (bit_vector);
    assert(flags & !0xF0u32 == 0 ==> ((flags & 0x10u32 != 0 || flags & 0x20u32 != 0 || flags
        & 0x40u32 != 0 || flags & 0x80u32 != 0) == (flags != 0))) by (bit_vector);
}

/// A word gives back the bytes that it was packed from.
pub proof fn bytes_of_packed(b0: u8, b1: u8, b2: u8, b3: u8)
    ensures
        byte_of(pack(b0, b1, b2, b3), 0) == b0,
        byte_of(pack(b0, b1, b2, b3), 1) == b1,
        byte_of(pack(b0, b1, b2, b3), 2) == b2,
        byte_of(pack(b0, b1, b2, b3), 3) == b3,
{
    let word = pack(b0, b1, b2, b3);
    assert(word == (b0 as u32) | ((b1 as u32) << 8) | ((b2 as u32) << 16) | ((b3 as u32) << 24));
    assert(word == (b0 as u32) | ((b1 as u32) << 8) | ((b2 as u32) << 16) | ((b3 as u32) << 24)
        ==> word as u8 == b0 && (word >> 8) as u8 == b1 && (word >> 16) as u8 == b2 && (word
        >> 24) as u8 == b3) by (bit_vector);
}

/// Programming nothing changes nothing.
pub proof fn programmed_nothing(memory: Seq<u8>, at: int, data: Seq<u8>)
    requires
        data.len() == 0,
    ensures
        programmed(memory, at, data) == memory,
{
    assert(programmed(memory, at, data) =~= memory);
}

/// Programming one more word after the first `index` chunks of `data` is
/// programming the first `index + 1` chunks.
pub proof fn programmed_word_extends(memory: Seq<u8>, at: int, data: Seq<u8>, index: int)
    requires
        0 <= index,
        4 * index + 4 <= data.len(),
        0 <= at,
        at + data.len() <= memory.len(),
    ensures
        programmed_word(
            programmed(memory, at, data.subrange(0, 4 * index)),
            at + 4 * index,
            word_at(data, index),
        ) == programmed(memory, at, data.subrange(0, 4 * index + 4)),
{
    bytes_of_packed(
        data[4 * index],
        data[4 * index + 1],
        data[4 * index + 2],
        data[4 * index + 3],
    );
    assert(programmed_word(
        programmed(memory, at, data.subrange(0, 4 * index)),
        at + 4 * index,
        word_at(data, index),
    ) =~= programmed(memory, at, data.subrange(0, 4 * index + 4)));
}

/// A command takes a valid state to a valid state.
pub proof fn after_keeps_wf(device: Device, command: Command)
    requires
        device.wf(),
    ensures
        device.after(command).wf(),
{
    faults_stay_in_place(device.flags);
    clearing_leaves_nothing(device.flags);
}

} // verus!
