//! Waiting for the controller: the bookkeeping that the proofs of the
//! erase and of the write share.

use vstd::prelude::*;
use crate::device::{busy_flag_is_apart, Device};
use crate::outcome::polling;
use crate::protocol::{reports_idle, Command};
use crate::status::is_busy;

verus! {

/// How many more reads of the status register show the busy flag, counting
/// the read that `reply` came from.
pub open spec fn polls(reply: Option<u32>, device: Device) -> nat {
    match reply {
        Some(status) => if is_busy(status) {
            device.busy + 1
        } else {
            device.busy
        },
        None => device.busy,
    }
}

/// The reply is a status word, and the controller is idle if it says so.
pub open spec fn polled(reply: Option<u32>, device: Device) -> bool {
    reply is Some && (reports_idle(reply) ==> device.busy == 0)
}

/// A number of status reads in a row.
pub open spec fn reads(count: int) -> Seq<Command> {
    Seq::new(count as nat, |i: int| Command::ReadStatus)
}

/// How many status reads a wait has made so far, if the controller was busy
/// for `busy` reads when the wait began.
pub open spec fn reads_so_far(busy: nat, reply: Option<u32>, device: Device) -> int {
    busy - device.busy + if reports_idle(reply) {
        1int
    } else {
        0int
    }
}

/// The first status read of a wait.
pub proof fn wait_begins(prefix: Seq<Command>, device: Device)
    requires
        device.wf(),
    ensures
        ({
            let after = device.after(Command::ReadStatus);
            let answer = device.reply(Command::ReadStatus);
            &&& prefix.push(Command::ReadStatus) == prefix + reads(
                reads_so_far(device.busy, answer, after),
            )
            &&& polled(answer, after)
            &&& after.busy <= device.busy
            &&& after.idled() == device.idled()
        }),
{
    let after = device.after(Command::ReadStatus);
    let answer = device.reply(Command::ReadStatus);
    busy_flag_is_apart(device.flags);
    assert(reads_so_far(device.busy, answer, after) == 1);
    assert(prefix.push(Command::ReadStatus) =~= prefix + reads(1));
}

/// One more status read of a wait that saw the busy flag.
pub proof fn wait_goes_on(prefix: Seq<Command>, busy: nat, reply: Option<u32>, device: Device)
    requires
        device.wf(),
        device.busy <= busy,
        !reports_idle(reply),
    ensures
        ({
            let after = device.after(Command::ReadStatus);
            let answer = device.reply(Command::ReadStatus);
            &&& (prefix + reads(reads_so_far(busy, reply, device))).push(Command::ReadStatus)
                == prefix + reads(reads_so_far(busy, answer, after))
            &&& polled(answer, after)
            &&& after.busy <= busy
            &&& after.idled() == device.idled()
            &&& polls(answer, after) < polls(reply, device) || reply is None
        }),
{
    let after = device.after(Command::ReadStatus);
    let answer = device.reply(Command::ReadStatus);
    let so_far = reads_so_far(busy, reply, device);
    busy_flag_is_apart(device.flags);
    assert(reads_so_far(busy, answer, after) == so_far + 1);
    assert((prefix + reads(so_far)).push(Command::ReadStatus) =~= prefix + reads(so_far + 1));
}

/// A wait that saw the controller idle has made all its status reads.
pub proof fn wait_is_over(busy: nat, reply: Option<u32>, device: Device)
    requires
        reports_idle(reply),
        device.busy == 0,
    ensures
        reads(reads_so_far(busy, reply, device)) == polling(busy),
{
    assert(reads(reads_so_far(busy, reply, device)) =~= polling(busy));
}

} // verus!
