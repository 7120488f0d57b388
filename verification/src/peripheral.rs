//! An executable flash peripheral that behaves as `Device` says.
//!
//! `Peripheral` keeps the registers and the array in ordinary memory, so
//! that the driver can be run and tested away from the hardware.

use vstd::prelude::*;
use crate::device::{after_keeps_wf, erased, programmed_word};
use crate::device::{Control, Device, Lock, ERASED, WORD_WIDTH};
use crate::protocol::{Command, ALL_FLAGS, KEY1, KEY2};
use crate::sector::{descriptor, sector_of, sectors_are_contiguous};
use crate::sector::{FLASH_BASE, FLASH_SIZE, SECTOR_COUNT};
use crate::status::{ALIGNMENT, BUSY, PARALLELISM, SEQUENCE, WRITE_PROTECT};

verus! {

/// A flash peripheral held in memory.
pub struct Peripheral {
    memory: Vec<u8>,
    lock: Lock,
    control: Control,
    flags: u32,
    busy: u32,
    latency: u32,
    protected: Vec<bool>,
    history: Ghost<Seq<Command>>,
}

impl View for Peripheral {
    type V = Device;

    closed spec fn view(&self) -> Device {
        Device {
            memory: self.memory@,
            lock: self.lock,
            control: self.control,
            flags: self.flags,
            busy: self.busy as nat,
            latency: self.latency as nat,
            protected: self.protected@,
        }
    }
}

/// Sets every byte of a sector to the erased value.
fn erase_bytes(memory: &mut Vec<u8>, sector: u8)
    requires
        old(memory)@.len() == FLASH_SIZE,
        sector < SECTOR_COUNT,
    ensures
        final(memory)@ == erased(old(memory)@, sector),
{
    proof {
        sectors_are_contiguous(sector);
    }
    let map = descriptor(sector);
    let first: usize = map.base - FLASH_BASE;
    let end: usize = first + map.size;
    let mut at: usize = first;
    while at < end
        invariant
            first <= at <= end,
            end <= FLASH_SIZE,
            memory@.len() == FLASH_SIZE,
            forall|i: int|
                0 <= i < FLASH_SIZE ==> memory@[i] == if first <= i < at {
                    ERASED
                } else {
                    old(memory)@[i]
                },
        decreases end - at,
    {
        memory.set(at, ERASED);
        at += 1;
    }
    assert(memory@ =~= erased(old(memory)@, sector));
}

/// Programs one word: each of its four bytes is ANDed into the array.
fn program_bytes(memory: &mut Vec<u8>, at: usize, value: u32)
    requires
        at + 4 <= old(memory).len(),
    ensures
        final(memory)@ == programmed_word(old(memory)@, at as int, value),
{
    let b0: u8 = #[verifier::truncate]
    (value as u8);
    let b1: u8 = #[verifier::truncate]
    ((value >> 8) as u8);
    let b2: u8 = #[verifier::truncate]
    ((value >> 16) as u8);
    let b3: u8 = #[verifier::truncate]
    ((value >> 24) as u8);
    let m0: u8 = memory[at];
    let m1: u8 = memory[at + 1];
    let m2: u8 = memory[at + 2];
    let m3: u8 = memory[at + 3];
    memory.set(at, m0 & b0);
    memory.set(at + 1, m1 & b1);
    memory.set(at + 2, m2 & b2);
    memory.set(at + 3, m3 & b3);
    assert(memory@ =~= programmed_word(old(memory)@, at as int, value));
}

impl Peripheral {
    /// The commands that the peripheral was given since reset, oldest
    /// first.
    pub closed spec fn history(&self) -> Seq<Command> {
        self.history@
    }

    /// A peripheral after reset: locked and idle, the array erased, no
    /// sector protected. Operations keep it busy for `latency` reads of
    /// the status register.
    pub fn new(latency: u32) -> (peripheral: Peripheral)
        ensures
            peripheral@ == Device::fresh(latency as nat),
            peripheral@.wf(),
            peripheral.history() == Seq::<Command>::empty(),
    {
        let memory: Vec<u8> = vec![ERASED; FLASH_SIZE];
        let protected: Vec<bool> = vec![false; 12];
        let peripheral = Peripheral {
            memory,
            lock: Lock::Locked,
            control: Control {
                program: false,
                sector_erase: false,
                sector: 0,
                start: false,
                width: 0,
            },
            flags: 0,
            busy: 0,
            latency,
            protected,
            history: Ghost(Seq::empty()),
        };
        proof {
            assert(peripheral@.memory =~= Device::fresh(latency as nat).memory);
            assert(peripheral@.protected =~= Device::fresh(latency as nat).protected);
            assert(0u32 & !0xF0u32 == 0) by (bit_vector);
        }
        peripheral
    }

    /// Write-protects a sector.
    pub fn protect(&mut self, sector: u8)
        requires
            old(self)@.wf(),
            sector < SECTOR_COUNT,
        ensures
            final(self)@ == (Device {
                protected: old(self)@.protected.update(sector as int, true),
                ..old(self)@
            }),
            final(self)@.wf(),
            final(self).history() == old(self).history(),
    {
        self.protected.set(sector as usize, true);
    }

    /// Tells whether the control register takes writes.
    pub fn is_open(&self) -> (open: bool)
        ensures
            open == self@.is_open(),
    {
        match self.lock {
            Lock::Open => true,
            _ => false,
        }
    }

    /// The control register as it stands.
    pub fn control(&self) -> (control: Control)
        ensures
            control == self@.control,
    {
        self.control
    }

    /// Reads one byte of the flash array.
    pub fn load(&self, address: usize) -> (byte: u8)
        requires
            self@.wf(),
            FLASH_BASE <= address < FLASH_BASE + FLASH_SIZE,
        ensures
            byte == self@.memory[address - FLASH_BASE],
    {
        self.memory[address - FLASH_BASE]
    }

    /// Carries a command out and gives the reply.
    pub fn perform(&mut self, command: Command) -> (reply: Option<u32>)
        requires
            old(self)@.wf(),
        ensures
            final(self)@ == old(self)@.after(command),
            reply == old(self)@.reply(command),
            final(self)@.wf(),
            final(self).history() == old(self).history().push(command),
    {
        proof {
            after_keeps_wf(self@, command);
        }
        self.history = Ghost(self.history@.push(command));
        let open: bool = match self.lock {
            Lock::Open => true,
            _ => false,
        };
        match command {
            Command::WriteKey(key) => {
                self.lock = match self.lock {
                    Lock::Locked => if key == KEY1 {
                        Lock::HalfOpen
                    } else {
                        Lock::Jammed
                    },
                    Lock::HalfOpen => if key == KEY2 {
                        Lock::Open
                    } else {
                        Lock::Jammed
                    },
                    Lock::Open => Lock::Open,
                    Lock::Jammed => Lock::Jammed,
                };
                None
            },
            Command::SelectWordWidth => {
                if open {
                    self.control.width = WORD_WIDTH;
                }
                None
            },
            Command::ReadStatus => {
                if self.busy > 0 {
                    self.busy = self.busy - 1;
                    Some(self.flags | BUSY)
                } else {
                    Some(self.flags)
                }
            },
            Command::SelectSector(sector) => {
                if open {
                    self.control.sector_erase = true;
                    self.control.sector = sector % 16;
                }
                None
            },
            Command::Start => {
                if open {
                    self.control.start = true;
                    let sector: u8 = self.control.sector;
                    if self.control.sector_erase && sector < SECTOR_COUNT {
                        if self.protected[sector as usize] {
                            self.flags = self.flags | WRITE_PROTECT;
                        } else {
                            erase_bytes(&mut self.memory, sector);
                        }
                        self.busy = self.latency;
                    }
                }
                None
            },
            Command::ClearStart => {
                if open {
                    self.control.start = false;
                }
                None
            },
            Command::ClearWriteProtect => {
                self.flags = self.flags & !(self.flags | WRITE_PROTECT);
                None
            },
            Command::EnableProgramming => {
                if open {
                    self.control.program = true;
                }
                None
            },
            Command::StoreWord { address, value } => {
                if FLASH_BASE <= address && address - FLASH_BASE <= FLASH_SIZE - 4 {
                    if !self.control.program {
                        self.flags = self.flags | SEQUENCE;
                    } else if self.control.width != WORD_WIDTH {
                        self.flags = self.flags | PARALLELISM;
                    } else if address % 4 != 0 {
                        self.flags = self.flags | ALIGNMENT;
                    } else if self.protected[sector_of(address) as usize] {
                        self.flags = self.flags | WRITE_PROTECT;
                    } else {
                        program_bytes(&mut self.memory, address - FLASH_BASE, value);
                    }
                    self.busy = self.latency;
                }
                None
            },
            Command::ClearStatus => {
                self.flags = self.flags & !ALL_FLAGS;
                None
            },
            Command::DisableProgramming => {
                if open {
                    self.control.program = false;
                }
                None
            },
        }
    }
}

} // verus!
