//! The status register, as far as the driver reads it.
//!
//! The register holds a busy flag and four fault flags. A fault is reported
//! to the caller as the lower half of the register, exactly as it was read
//! when the fault was seen; `FlashError` gives the bits names.

use vstd::prelude::*;

verus! {

/// The controller is in the middle of an erase or a program operation.
pub const BUSY: u32 = 0x0001_0000;

/// An erase or a store hit a write-protected sector.
pub const WRITE_PROTECT: u32 = 0x0000_0010;

/// A store was not aligned to the programming width.
pub const ALIGNMENT: u32 = 0x0000_0020;

/// The width of a store did not match the configured programming width.
pub const PARALLELISM: u32 = 0x0000_0040;

/// A store arrived while the control register was not set up for it.
pub const SEQUENCE: u32 = 0x0000_0080;

/// The four fault flags together.
pub const FAULTS: u32 = 0x0000_00F0;

/// The busy flag is set in a status word.
pub open spec fn is_busy(status: u32) -> bool {
    status & BUSY != 0
}

/// The write-protection fault is set in a status word.
pub open spec fn is_write_protected(status: u32) -> bool {
    status & WRITE_PROTECT != 0
}

/// The alignment fault is set in a status word.
pub open spec fn is_misaligned(status: u32) -> bool {
    status & ALIGNMENT != 0
}

/// The parallelism fault is set in a status word.
pub open spec fn is_wrong_width(status: u32) -> bool {
    status & PARALLELISM != 0
}

/// The sequence fault is set in a status word.
pub open spec fn is_out_of_sequence(status: u32) -> bool {
    status & SEQUENCE != 0
}

/// At least one of the four faults that a store can raise is set.
pub open spec fn has_program_fault(status: u32) -> bool {
    is_write_protected(status) || is_misaligned(status) || is_wrong_width(status)
        || is_out_of_sequence(status)
}

/// The lower sixteen bits of a status word: what a failed operation reports.
pub open spec fn snapshot(status: u32) -> u16 {
    status as u16
}

/// Tests the busy flag.
pub fn busy(status: u32) -> (set: bool)
    ensures
        set == is_busy(status),
{
    status & BUSY != 0
}

/// Tests the write-protection fault.
pub fn write_protected(status: u32) -> (set: bool)
    ensures
        set == is_write_protected(status),
{
    status & WRITE_PROTECT != 0
}

/// Tests the four faults that a store can raise.
pub fn program_fault(status: u32) -> (set: bool)
    ensures
        set == has_program_fault(status),
{
    status & WRITE_PROTECT != 0 || status & ALIGNMENT != 0 || status & PARALLELISM != 0 || status
        & SEQUENCE != 0
}

/// Cuts a status word down to the sixteen bits that are reported.
pub fn capture(status: u32) -> (low: u16)
    ensures
        low == snapshot(status),
{
    #[verifier::truncate]
    (status as u16)
}

/// Cutting a status word down to sixteen bits keeps every fault flag.
pub proof fn snapshot_keeps_faults(status: u32)
    ensures
        is_write_protected(snapshot(status) as u32) == is_write_protected(status),
        is_misaligned(snapshot(status) as u32) == is_misaligned(status),
        is_wrong_width(snapshot(status) as u32) == is_wrong_width(status),
        is_out_of_sequence(snapshot(status) as u32) == is_out_of_sequence(status),
        !is_busy(snapshot(status) as u32),
{
    assert(((status as u16) as u32) & 0x10u32 == status & 0x10u32) by (bit_vector);
    assert(((status as u16) as u32) & 0x20u32 == status & 0x20u32) by (bit_vector);
    assert(((status as u16) as u32) & 0x40u32 == status & 0x40u32) by (bit_vector);
    assert(((status as u16) as u32) & 0x80u32 == status & 0x80u32) by (bit_vector);
    assert(((status as u16) as u32) & 0x0001_0000u32 == 0) by (bit_vector);
}

/// The status bits that a failed erase or write hands back.
#[derive(Debug, Clone, Copy)]
pub struct FlashError {
    status: u16,
}

impl View for FlashError {
    type V = u16;

    closed spec fn view(&self) -> u16 {
        self.status
    }
}

impl FlashError {
    /// Wraps the status bits of a failed operation.
    pub fn new(status: u16) -> (error: FlashError)
        ensures
            error@ == status,
    {
        FlashError { status }
    }

    /// The status bits as they were read.
    pub fn status(&self) -> (status: u16)
        ensures
            status == self@,
    {
        self.status
    }

    /// The operation hit a write-protected sector.
    pub fn write_protected(&self) -> (set: bool)
        ensures
            set == is_write_protected(self@ as u32),
    {
        self.status as u32 & WRITE_PROTECT != 0
    }

    /// A store was not aligned to the programming width.
    pub fn misaligned(&self) -> (set: bool)
        ensures
            set == is_misaligned(self@ as u32),
    {
        self.status as u32 & ALIGNMENT != 0
    }

    /// The width of a store did not match the configured programming width.
    pub fn wrong_width(&self) -> (set: bool)
        ensures
            set == is_wrong_width(self@ as u32),
    {
        self.status as u32 & PARALLELISM != 0
    }

    /// A store arrived while the control register was not set up for it.
    pub fn out_of_sequence(&self) -> (set: bool)
        ensures
            set == is_out_of_sequence(self@ as u32),
    {
        self.status as u32 & SEQUENCE != 0
    }
}

} // verus!
