//! The PTT call of the EXTFSK interface.
use vstd::prelude::*;

use crate::common::config::CommandKind;

verus! {

/// The commands that switching to `tx` sends: the transmit list when
/// transmitting, the receive list otherwise. Whether the host is scanning
/// does not matter.
pub fn set_ptt(tx: bool, _mmsstv_scan: bool) -> (kind: CommandKind)
    ensures
        kind == (if tx {
            CommandKind::Tx
        } else {
            CommandKind::Rx
        }),
{
    if tx {
        CommandKind::Tx
    } else {
        CommandKind::Rx
    }
}

} // verus!
