//! Why `Flash::write` does what `outcome` says: what holds of the
//! peripheral in each phase of the write machine, and that every step keeps
//! it so.

use vstd::prelude::*;
use crate::device::{busy_flag_is_apart, clearing_leaves_nothing, faults_stay_in_place};
use crate::device::{programmed, programmed_nothing, programmed_word_extends, raised_flags_show};
use crate::device::Device;
use crate::outcome::{chunk_commands, chunks_commands, enabled, polling, write_commands};
use crate::outcome::{write_effect, write_result, write_status};
use crate::protocol::{reports_idle, word_at, write_next, Command, Step, WritePhase};
use crate::sector::{access_fits, sector_at_inverts_base, sector_base, sectors_are_contiguous};
use crate::sector::FLASH_BASE;
use crate::status::{has_program_fault, snapshot};
use crate::waiting::{polled, polls, reads, reads_so_far, wait_begins, wait_goes_on, wait_is_over};

verus! {

/// How far a write in a given phase is from the end of its chunk.
pub open spec fn write_rank(phase: WritePhase) -> nat {
    match phase {
        WritePhase::Idle => 9,
        WritePhase::Busy(_) => 8,
        WritePhase::Enabled(_) => 7,
        WritePhase::Stored(_) => 6,
        WritePhase::Operating(_) => 5,
        WritePhase::Checking(_) => 4,
        WritePhase::Error(_) => 3,
        WritePhase::Disabling => 2,
        WritePhase::Failed(_) => 1,
        WritePhase::Done => 0,
    }
}

/// How many chunks a write in a given phase has still to get through.
pub open spec fn write_remaining(phase: WritePhase, chunks: int) -> int {
    match phase {
        WritePhase::Idle => chunks,
        WritePhase::Busy(index) => chunks - index,
        WritePhase::Enabled(index) => chunks - index,
        WritePhase::Stored(index) => chunks - index,
        WritePhase::Operating(index) => chunks - index,
        WritePhase::Checking(index) => chunks - index,
        _ => 0,
    }
}

/// The peripheral with the first `index` chunks programmed, idle and ready
/// for the next store.
pub open spec fn write_progress(start: Device, address: int, data: Seq<u8>, index: int) -> Device {
    Device {
        memory: programmed(start.memory, address - FLASH_BASE, data.subrange(0, 4 * index)),
        ..enabled(start)
    }
}

/// The peripheral right after chunk `index` was stored.
pub open spec fn write_stored(start: Device, address: int, data: Seq<u8>, index: int) -> Device {
    write_progress(start, address, data, index).after(
        Command::StoreWord { address: (address + 4 * index) as usize, value: word_at(data, index) },
    )
}

/// Neither an old flag nor the store itself makes the write fail.
pub open spec fn healthy(start: Device, address: int) -> bool {
    !has_program_fault(write_status(start, address))
}

/// How long the controller can still be busy when chunk `index` begins.
pub open spec fn busy_before(start: Device, index: int) -> nat {
    if index == 0 {
        start.busy
    } else {
        0
    }
}

/// What holds of the peripheral while a write that began in state `start`
/// is in a given phase and has `reply` in hand.
pub open spec fn write_invariant(
    start: Device,
    address: int,
    data: Seq<u8>,
    phase: WritePhase,
    reply: Option<u32>,
    device: Device,
) -> bool {
    let chunks = data.len() as int / 4;
    match phase {
        WritePhase::Idle => device == start,
        WritePhase::Busy(index) => {
            &&& polled(reply, device)
            &&& if index == 0 {
                device.idled() == start.idled() && device.busy <= start.busy
            } else {
                &&& healthy(start, address)
                &&& device == write_progress(start, address, data, index as int)
                &&& reports_idle(reply)
            }
        },
        WritePhase::Enabled(index) => {
            &&& device == write_progress(start, address, data, index as int)
            &&& index > 0 ==> healthy(start, address)
        },
        WritePhase::Stored(index) => {
            &&& device == write_stored(start, address, data, index as int)
            &&& index > 0 ==> healthy(start, address)
        },
        WritePhase::Operating(index) => {
            &&& device.idled() == write_stored(start, address, data, index as int).idled()
            &&& device.busy <= start.latency
            &&& polled(reply, device)
            &&& index > 0 ==> healthy(start, address)
        },
        WritePhase::Checking(index) => {
            &&& device == write_stored(start, address, data, index as int).idled()
            &&& reply == Some(device.status())
            &&& index > 0 ==> healthy(start, address)
        },
        WritePhase::Error(bits) => {
            &&& chunks > 0
            &&& !healthy(start, address)
            &&& device == write_stored(start, address, data, 0).idled().after(
                Command::ClearStatus,
            )
            &&& bits == snapshot(write_status(start, address))
        },
        WritePhase::Disabling => if chunks == 0 {
            device == start.after(Command::DisableProgramming)
        } else {
            healthy(start, address) && device == write_progress(start, address, data, chunks).after(
                Command::DisableProgramming,
            )
        },
        WritePhase::Failed(_) => false,
        WritePhase::Done => false,
    }
}

/// The commands that a write has given when the word of chunk `index` is
/// stored.
pub open spec fn write_to_store(start: Device, address: int, data: Seq<u8>, index: int) -> Seq<Command> {
    (chunks_commands(start, address, data, index) + polling(busy_before(start, index))).push(
        Command::EnableProgramming,
    ).push(
        Command::StoreWord { address: (address + 4 * index) as usize, value: word_at(data, index) },
    )
}

/// The commands that a write has given when it is in a given phase.
pub open spec fn write_history(
    start: Device,
    address: int,
    data: Seq<u8>,
    phase: WritePhase,
    reply: Option<u32>,
    device: Device,
) -> Seq<Command> {
    let chunks = data.len() as int / 4;
    match phase {
        WritePhase::Idle => Seq::empty(),
        WritePhase::Busy(index) => chunks_commands(start, address, data, index as int) + reads(
            reads_so_far(busy_before(start, index as int), reply, device),
        ),
        WritePhase::Enabled(index) => (chunks_commands(start, address, data, index as int)
            + polling(busy_before(start, index as int))).push(Command::EnableProgramming),
        WritePhase::Stored(index) => write_to_store(start, address, data, index as int),
        WritePhase::Operating(index) => write_to_store(start, address, data, index as int) + reads(
            reads_so_far(start.latency, reply, device),
        ),
        WritePhase::Checking(index) => chunks_commands(start, address, data, index + 1),
        WritePhase::Error(_) => chunks_commands(start, address, data, 1).push(
            Command::ClearStatus,
        ),
        WritePhase::Disabling => chunks_commands(start, address, data, chunks).push(
            Command::DisableProgramming,
        ),
        WritePhase::Failed(_) => Seq::empty(),
        WritePhase::Done => Seq::empty(),
    }
}

/// Storing chunk `index` of a write inside one sector: what the status
/// shows afterwards, and where a store that went well leaves the array.
pub proof fn write_stores_chunk(start: Device, sector: u8, offset: int, data: Seq<u8>, index: int)
    requires
        start.wf(),
        access_fits(sector, offset, data.len() as int),
        0 <= index,
        4 * index + 4 <= data.len(),
        index > 0 ==> healthy(start, sector_base(sector) + offset),
    ensures
        ({
            let address = sector_base(sector) + offset;
            let stored = write_stored(start, address, data, index).idled();
            &&& stored.wf()
            &&& write_stored(start, address, data, index).busy == start.latency
            &&& index == 0 ==> stored.status() == write_status(start, address)
            &&& healthy(start, address) ==> stored == write_progress(
                start,
                address,
                data,
                index + 1,
            ) && stored.status() == write_status(start, address)
        }),
{
    let address = sector_base(sector) + offset;
    let at = address - FLASH_BASE;
    let progress = write_progress(start, address, data, index);
    let stored = write_stored(start, address, data, index).idled();
    sectors_are_contiguous(sector);
    sector_at_inverts_base(sector, offset);
    sector_at_inverts_base(sector, offset + 4 * index);
    faults_stay_in_place(start.flags);
    raised_flags_show(start.flags);
    assert(progress.decodes(address + 4 * index));
    assert(progress.store_fault(address + 4 * index) == enabled(start).store_fault(address));
    if healthy(start, address) {
        programmed_word_extends(start.memory, at, data, index);
        assert(stored =~= write_progress(start, address, data, index + 1));
    }
}

/// The commands of a chunk, one after the other, are `chunk_commands`.
pub proof fn chunk_is_complete(start: Device, address: int, data: Seq<u8>, index: int)
    requires
        0 <= index,
    ensures
        (write_to_store(start, address, data, index) + polling(start.latency)).push(
            Command::ReadStatus,
        ) == chunks_commands(start, address, data, index + 1),
{
    assert((write_to_store(start, address, data, index) + polling(start.latency)).push(
        Command::ReadStatus,
    ) =~= chunks_commands(start, address, data, index) + chunk_commands(
        busy_before(start, index),
        start.latency,
        address,
        data,
        index,
    ));
}

/// One step of a write from a given phase keeps `write_invariant` and
/// `write_history` and brings the write nearer to its end, or ends it in
/// `write_effect` with `write_result` after `write_commands`.
pub open spec fn write_step_holds(
    start: Device,
    address: int,
    data: Seq<u8>,
    phase: WritePhase,
    reply: Option<u32>,
    device: Device,
) -> bool {
    let chunks = data.len() as int / 4;
    let (next, step) = write_next(address, data, phase, reply);
    let history = write_history(start, address, data, phase, reply, device);
    match step {
        Step::Issue(command) => {
            let after = device.after(command);
            let answer = device.reply(command);
            &&& write_invariant(start, address, data, next, answer, after)
            &&& history.push(command) == write_history(start, address, data, next, answer, after)
            &&& 0 <= write_remaining(next, chunks) <= write_remaining(phase, chunks)
            &&& write_remaining(next, chunks) == write_remaining(phase, chunks) ==> write_rank(next)
                <= write_rank(phase)
            &&& write_remaining(next, chunks) == write_remaining(phase, chunks) && write_rank(next)
                == write_rank(phase) ==> polls(answer, after) < polls(reply, device)
        },
        Step::Finish(result) => {
            &&& device == write_effect(start, address, data)
            &&& result == write_result(start, address, data)
            &&& history == write_commands(start, address, data)
        },
    }
}

/// The first step of a write.
pub proof fn write_begins_soundly(
    start: Device,
    address: int,
    data: Seq<u8>,
    reply: Option<u32>,
    device: Device,
)
    requires
        device.wf(),
        write_invariant(start, address, data, WritePhase::Idle, reply, device),
    ensures
        write_step_holds(start, address, data, WritePhase::Idle, reply, device),
{
    let empty = Seq::<Command>::empty();
    if data.len() as int / 4 == 0 {
        assert(chunks_commands(start, address, data, 0) =~= empty);
    } else {
        wait_begins(empty, device);
        let after = device.after(Command::ReadStatus);
        let answer = device.reply(Command::ReadStatus);
        assert(write_history(start, address, data, WritePhase::Busy(0), answer, after) =~= empty
            + reads(reads_so_far(start.busy, answer, after)));
    }
}

/// The step of a write that polls.
pub proof fn write_polls_soundly(
    start: Device,
    sector: u8,
    offset: int,
    data: Seq<u8>,
    phase: WritePhase,
    reply: Option<u32>,
    device: Device,
)
    requires
        start.wf(),
        device.wf(),
        access_fits(sector, offset, data.len() as int),
        phase is Operating || phase is Busy,
        !reports_idle(reply),
        phase.within(data.len() as int / 4),
        write_invariant(start, sector_base(sector) + offset, data, phase, reply, device),
    ensures
        write_step_holds(start, sector_base(sector) + offset, data, phase, reply, device),
{
    let address = sector_base(sector) + offset;
    match phase {
        WritePhase::Busy(index) => {
            wait_goes_on(
                chunks_commands(start, address, data, index as int),
                busy_before(start, index as int),
                reply,
                device,
            );
        },
        WritePhase::Operating(index) => {
            wait_goes_on(
                write_to_store(start, address, data, index as int),
                start.latency,
                reply,
                device,
            );
        },
        _ => {},
    }
}

/// The step of a write that enables programming.
pub proof fn write_enables_soundly(
    start: Device,
    address: int,
    data: Seq<u8>,
    index: usize,
    reply: Option<u32>,
    device: Device,
)
    requires
        start.wf(),
        reports_idle(reply),
        index < data.len() as int / 4,
        write_invariant(start, address, data, WritePhase::Busy(index), reply, device),
    ensures
        write_step_holds(start, address, data, WritePhase::Busy(index), reply, device),
{
    let at = address - FLASH_BASE;
    raised_flags_show(start.flags);
    faults_stay_in_place(start.flags);
    wait_is_over(busy_before(start, index as int), reply, device);
    if index == 0 {
        programmed_nothing(start.memory, at, data.subrange(0, 0));
        assert(device.after(Command::EnableProgramming) =~= write_progress(
            start,
            address,
            data,
            0,
        ));
    } else {
        assert(enabled(start).store_fault(address) is None);
        assert(device.after(Command::EnableProgramming) =~= write_progress(
            start,
            address,
            data,
            index as int,
        ));
    }
}

/// The steps of a write that store a word and begin to wait for it.
pub proof fn write_stores_soundly(
    start: Device,
    sector: u8,
    offset: int,
    data: Seq<u8>,
    phase: WritePhase,
    reply: Option<u32>,
    device: Device,
)
    requires
        start.wf(),
        device.wf(),
        data.len() % 4 == 0,
        access_fits(sector, offset, data.len() as int),
        phase is Enabled || phase is Stored,
        phase.within(data.len() as int / 4),
        write_invariant(start, sector_base(sector) + offset, data, phase, reply, device),
    ensures
        write_step_holds(start, sector_base(sector) + offset, data, phase, reply, device),
{
    let address = sector_base(sector) + offset;
    match phase {
        WritePhase::Stored(index) => {
            write_stores_chunk(start, sector, offset, data, index as int);
            wait_begins(write_to_store(start, address, data, index as int), device);
        },
        _ => {},
    }
}

/// The step of a write that ends a wait for a stored word.
pub proof fn write_settles_soundly(
    start: Device,
    address: int,
    data: Seq<u8>,
    index: usize,
    reply: Option<u32>,
    device: Device,
)
    requires
        device.wf(),
        reports_idle(reply),
        index < data.len() as int / 4,
        write_invariant(start, address, data, WritePhase::Operating(index), reply, device),
    ensures
        write_step_holds(start, address, data, WritePhase::Operating(index), reply, device),
{
    wait_is_over(start.latency, reply, device);
    chunk_is_complete(start, address, data, index as int);
    busy_flag_is_apart(device.flags);
}

/// The step of a write that looks at the status after a store.
pub proof fn write_checks_soundly(
    start: Device,
    sector: u8,
    offset: int,
    data: Seq<u8>,
    index: usize,
    reply: Option<u32>,
    device: Device,
)
    requires
        start.wf(),
        data.len() % 4 == 0,
        access_fits(sector, offset, data.len() as int),
        index < data.len() as int / 4,
        write_invariant(
            start,
            sector_base(sector) + offset,
            data,
            WritePhase::Checking(index),
            reply,
            device,
        ),
    ensures
        write_step_holds(
            start,
            sector_base(sector) + offset,
            data,
            WritePhase::Checking(index),
            reply,
            device,
        ),
{
    let address = sector_base(sector) + offset;
    write_stores_chunk(start, sector, offset, data, index as int);
    busy_flag_is_apart(device.flags);
    if !has_program_fault(device.status()) && index + 1 < data.len() as int / 4 {
        wait_begins(chunks_commands(start, address, data, index + 1), device);
    }
}

/// The last step of a write that failed.
pub proof fn write_fails_soundly(
    start: Device,
    sector: u8,
    offset: int,
    data: Seq<u8>,
    bits: u16,
    reply: Option<u32>,
    device: Device,
)
    requires
        start.wf(),
        data.len() % 4 == 0,
        access_fits(sector, offset, data.len() as int),
        write_invariant(
            start,
            sector_base(sector) + offset,
            data,
            WritePhase::Error(bits),
            reply,
            device,
        ),
    ensures
        write_step_holds(
            start,
            sector_base(sector) + offset,
            data,
            WritePhase::Error(bits),
            reply,
            device,
        ),
{
    let address = sector_base(sector) + offset;
    let at = address - FLASH_BASE;
    sectors_are_contiguous(sector);
    write_stores_chunk(start, sector, offset, data, 0);
    clearing_leaves_nothing(write_stored(start, address, data, 0).flags);
    programmed_nothing(start.memory, at, data.subrange(0, 0));
    programmed_word_extends(start.memory, at, data, 0);
    assert(device =~= write_effect(start, address, data));
    assert(write_history(start, address, data, WritePhase::Error(bits), reply, device)
        =~= write_commands(start, address, data));
}

/// The last step of a write that went well.
pub proof fn write_ends_soundly(
    start: Device,
    address: int,
    data: Seq<u8>,
    reply: Option<u32>,
    device: Device,
)
    requires
        data.len() % 4 == 0,
        write_invariant(start, address, data, WritePhase::Disabling, reply, device),
    ensures
        write_step_holds(start, address, data, WritePhase::Disabling, reply, device),
{
    let chunks = data.len() as int / 4;
    if chunks > 0 {
        assert(data.subrange(0, 4 * chunks) =~= data);
        assert(device =~= write_effect(start, address, data));
    }
    assert(write_history(start, address, data, WritePhase::Disabling, reply, device)
        =~= write_commands(start, address, data));
}

/// Every step of a write is sound.
pub proof fn write_step_is_sound(
    start: Device,
    sector: u8,
    offset: int,
    data: Seq<u8>,
    phase: WritePhase,
    reply: Option<u32>,
    device: Device,
)
    requires
        start.wf(),
        device.wf(),
        data.len() % 4 == 0,
        access_fits(sector, offset, data.len() as int),
        phase.within(data.len() as int / 4),
        write_invariant(start, sector_base(sector) + offset, data, phase, reply, device),
    ensures
        write_step_holds(start, sector_base(sector) + offset, data, phase, reply, device),
{
    let address = sector_base(sector) + offset;
    match phase {
        WritePhase::Idle => {
            write_begins_soundly(start, address, data, reply, device);
        },
        WritePhase::Busy(index) => {
            if reports_idle(reply) {
                write_enables_soundly(start, address, data, index, reply, device);
            } else {
                write_polls_soundly(start, sector, offset, data, phase, reply, device);
            }
        },
        WritePhase::Enabled(index) => {
            write_stores_soundly(start, sector, offset, data, phase, reply, device);
        },
        WritePhase::Stored(index) => {
            write_stores_soundly(start, sector, offset, data, phase, reply, device);
        },
        WritePhase::Operating(index) => {
            if reports_idle(reply) {
                write_settles_soundly(start, address, data, index, reply, device);
            } else {
                write_polls_soundly(start, sector, offset, data, phase, reply, device);
            }
        },
        WritePhase::Checking(index) => {
            write_checks_soundly(start, sector, offset, data, index, reply, device);
        },
        WritePhase::Error(bits) => {
            write_fails_soundly(start, sector, offset, data, bits, reply, device);
        },
        WritePhase::Disabling => {
            write_ends_soundly(start, address, data, reply, device);
        },
        WritePhase::Failed(_) => {},
        WritePhase::Done => {},
    }
}

} // verus!
