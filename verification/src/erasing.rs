//! Why `Flash::erase` does what `outcome` says: what holds of the
//! peripheral in each phase of the erase machine, and that every step keeps
//! it so.

use vstd::prelude::*;
use crate::device::{busy_flag_is_apart, clearing_leaves_nothing, faults_stay_in_place};
use crate::device::{raised_flags_show, Device};
use crate::outcome::{erase_commands, erase_effect, erase_result, erase_status, polling};
use crate::protocol::{erase_next, reports_idle, Command, ErasePhase, Step};
use crate::sector::SECTOR_COUNT;
use crate::status::{is_write_protected, snapshot};
use crate::waiting::{polled, polls, reads, reads_so_far, wait_begins, wait_goes_on, wait_is_over};

verus! {

/// How far an erase in a given phase is from its end.
pub open spec fn erase_rank(phase: ErasePhase) -> nat {
    match phase {
        ErasePhase::Idle => 9,
        ErasePhase::Busy => 8,
        ErasePhase::Selected => 7,
        ErasePhase::Started => 6,
        ErasePhase::Operating => 5,
        ErasePhase::Stopped => 4,
        ErasePhase::Checking => 3,
        ErasePhase::Error(_) => 2,
        ErasePhase::Failed(_) => 1,
        ErasePhase::Done => 0,
    }
}

/// The peripheral once the sector is selected.
pub open spec fn erase_selected(start: Device, sector: u8) -> Device {
    start.idled().after(Command::SelectSector(sector))
}

/// The peripheral once the erase is triggered.
pub open spec fn erase_started(start: Device, sector: u8) -> Device {
    erase_selected(start, sector).after(Command::Start)
}

/// The peripheral once the erase is over and the start bit cleared.
pub open spec fn erase_stopped(start: Device, sector: u8) -> Device {
    erase_started(start, sector).idled().after(Command::ClearStart)
}

/// What holds of the peripheral while an erase that began in state `start`
/// is in a given phase and has `reply` in hand.
pub open spec fn erase_invariant(
    start: Device,
    sector: u8,
    phase: ErasePhase,
    reply: Option<u32>,
    device: Device,
) -> bool {
    match phase {
        ErasePhase::Idle => device == start,
        ErasePhase::Busy => {
            &&& device.idled() == start.idled()
            &&& device.busy <= start.busy
            &&& polled(reply, device)
        },
        ErasePhase::Selected => device == erase_selected(start, sector),
        ErasePhase::Started => device == erase_started(start, sector),
        ErasePhase::Operating => {
            &&& device.idled() == erase_started(start, sector).idled()
            &&& device.busy <= erase_started(start, sector).busy
            &&& polled(reply, device)
        },
        ErasePhase::Stopped => device == erase_stopped(start, sector),
        ErasePhase::Checking => device == erase_stopped(start, sector) && reply == Some(
            device.status(),
        ),
        ErasePhase::Error(bits) => {
            let stopped = erase_stopped(start, sector);
            &&& device == stopped.after(Command::ClearWriteProtect)
            &&& is_write_protected(stopped.status())
            &&& bits == snapshot(stopped.status())
        },
        ErasePhase::Failed(_) => false,
        ErasePhase::Done => false,
    }
}

/// The commands that an erase has given when it is in a given phase.
pub open spec fn erase_history(
    start: Device,
    sector: u8,
    phase: ErasePhase,
    reply: Option<u32>,
    device: Device,
) -> Seq<Command> {
    let started = erase_started(start, sector);
    let to_select = polling(start.busy).push(Command::SelectSector(sector));
    let to_start = to_select.push(Command::Start);
    let to_stop = (to_start + polling(started.busy)).push(Command::ClearStart);
    match phase {
        ErasePhase::Idle => Seq::empty(),
        ErasePhase::Busy => reads(reads_so_far(start.busy, reply, device)),
        ErasePhase::Selected => to_select,
        ErasePhase::Started => to_start,
        ErasePhase::Operating => to_start + reads(reads_so_far(started.busy, reply, device)),
        ErasePhase::Stopped => to_stop,
        ErasePhase::Checking => to_stop.push(Command::ReadStatus),
        ErasePhase::Error(_) => to_stop.push(Command::ReadStatus).push(Command::ClearWriteProtect),
        ErasePhase::Failed(_) => Seq::empty(),
        ErasePhase::Done => Seq::empty(),
    }
}

/// The commands of an erase, run from `start`, end in `erase_effect`.
pub proof fn erase_ends_in_effect(start: Device, sector: u8)
    requires
        start.wf(),
        sector < SECTOR_COUNT,
    ensures
        ({
            let stopped = erase_stopped(start, sector);
            &&& stopped.status() == erase_status(start, sector)
            &&& is_write_protected(stopped.status()) ==> stopped.after(Command::ClearWriteProtect)
                == erase_effect(start, sector)
            &&& !is_write_protected(stopped.status()) ==> stopped == erase_effect(start, sector)
        }),
{
    raised_flags_show(start.flags);
    clearing_leaves_nothing(start.flags);
    faults_stay_in_place(start.flags);
    let stopped = erase_stopped(start, sector);
    clearing_leaves_nothing(stopped.flags);
    assert(sector % 16 == sector);
    if is_write_protected(stopped.status()) {
        assert(stopped.after(Command::ClearWriteProtect) =~= erase_effect(start, sector));
    } else {
        assert(stopped =~= erase_effect(start, sector));
    }
}

/// One step of an erase from a given phase keeps `erase_invariant` and
/// `erase_history` and brings the erase nearer to its end, or ends it in
/// `erase_effect` with `erase_result` after `erase_commands`.
pub open spec fn erase_step_holds(
    start: Device,
    sector: u8,
    phase: ErasePhase,
    reply: Option<u32>,
    device: Device,
) -> bool {
    let (next, step) = erase_next(sector, phase, reply);
    let history = erase_history(start, sector, phase, reply, device);
    match step {
        Step::Issue(command) => {
            let after = device.after(command);
            let answer = device.reply(command);
            &&& erase_invariant(start, sector, next, answer, after)
            &&& history.push(command) == erase_history(start, sector, next, answer, after)
            &&& erase_rank(next) <= erase_rank(phase)
            &&& erase_rank(next) == erase_rank(phase) ==> polls(answer, after) < polls(
                reply,
                device,
            )
        },
        Step::Finish(result) => {
            &&& device == erase_effect(start, sector)
            &&& result == erase_result(start, sector)
            &&& history == erase_commands(start, sector)
        },
    }
}

/// The steps of an erase before the sector is selected.
pub proof fn erase_waits_soundly(
    start: Device,
    sector: u8,
    phase: ErasePhase,
    reply: Option<u32>,
    device: Device,
)
    requires
        start.wf(),
        device.wf(),
        sector < SECTOR_COUNT,
        phase is Idle || phase is Busy,
        erase_invariant(start, sector, phase, reply, device),
    ensures
        erase_step_holds(start, sector, phase, reply, device),
{
    let empty = Seq::<Command>::empty();
    if phase is Idle {
        wait_begins(empty, device);
        let after = device.after(Command::ReadStatus);
        let answer = device.reply(Command::ReadStatus);
        assert(erase_history(start, sector, ErasePhase::Busy, answer, after) =~= empty + reads(
            reads_so_far(start.busy, answer, after),
        ));
    } else if reports_idle(reply) {
        wait_is_over(start.busy, reply, device);
    } else {
        wait_goes_on(empty, start.busy, reply, device);
        let after = device.after(Command::ReadStatus);
        let answer = device.reply(Command::ReadStatus);
        assert(erase_history(start, sector, ErasePhase::Busy, answer, after) =~= empty + reads(
            reads_so_far(start.busy, answer, after),
        ));
        assert(erase_history(start, sector, phase, reply, device) =~= empty + reads(
            reads_so_far(start.busy, reply, device),
        ));
    }
}

/// The steps of an erase from the selection of the sector to the end of
/// the operation.
pub proof fn erase_operates_soundly(
    start: Device,
    sector: u8,
    phase: ErasePhase,
    reply: Option<u32>,
    device: Device,
)
    requires
        start.wf(),
        device.wf(),
        sector < SECTOR_COUNT,
        phase is Selected || phase is Started || phase is Operating,
        erase_invariant(start, sector, phase, reply, device),
    ensures
        erase_step_holds(start, sector, phase, reply, device),
{
    let started = erase_started(start, sector);
    let to_start = polling(start.busy).push(Command::SelectSector(sector)).push(Command::Start);
    if phase is Selected {
    } else if phase is Started {
        wait_begins(to_start, device);
    } else if reports_idle(reply) {
        wait_is_over(started.busy, reply, device);
    } else {
        wait_goes_on(to_start, started.busy, reply, device);
    }
}

/// The steps of an erase after the operation.
pub proof fn erase_checks_soundly(
    start: Device,
    sector: u8,
    phase: ErasePhase,
    reply: Option<u32>,
    device: Device,
)
    requires
        start.wf(),
        device.wf(),
        sector < SECTOR_COUNT,
        phase is Stopped || phase is Checking || phase is Error,
        erase_invariant(start, sector, phase, reply, device),
    ensures
        erase_step_holds(start, sector, phase, reply, device),
{
    let started = erase_started(start, sector);
    let history = erase_history(start, sector, phase, reply, device);
    assert(sector % 16 == sector);
    assert(started.busy == if start.is_open() {
        start.latency
    } else {
        0
    });
    erase_ends_in_effect(start, sector);
    busy_flag_is_apart(device.flags);
    if phase is Checking {
        if !is_write_protected(device.status()) {
            assert(history =~= erase_commands(start, sector));
        }
    } else if phase is Error {
        assert(history =~= erase_commands(start, sector));
    }
}

/// Every step of an erase is sound.
pub proof fn erase_step_is_sound(
    start: Device,
    sector: u8,
    phase: ErasePhase,
    reply: Option<u32>,
    device: Device,
)
    requires
        start.wf(),
        device.wf(),
        sector < SECTOR_COUNT,
        erase_invariant(start, sector, phase, reply, device),
    ensures
        erase_step_holds(start, sector, phase, reply, device),
{
    match phase {
        ErasePhase::Idle => erase_waits_soundly(start, sector, phase, reply, device),
        ErasePhase::Busy => erase_waits_soundly(start, sector, phase, reply, device),
        ErasePhase::Selected => erase_operates_soundly(start, sector, phase, reply, device),
        ErasePhase::Started => erase_operates_soundly(start, sector, phase, reply, device),
        ErasePhase::Operating => erase_operates_soundly(start, sector, phase, reply, device),
        ErasePhase::Stopped => erase_checks_soundly(start, sector, phase, reply, device),
        ErasePhase::Checking => erase_checks_soundly(start, sector, phase, reply, device),
        ErasePhase::Error(_) => erase_checks_soundly(start, sector, phase, reply, device),
        ErasePhase::Failed(_) => {},
        ErasePhase::Done => {},
    }
}

} // verus!
