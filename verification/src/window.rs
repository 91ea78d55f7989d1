//! The stake-window gate: boost deposits are admitted only in the opening
//! sub-window of each fixed time cycle, which stops a staker from buying in
//! just before an accrual and leaving just after it.

use vstd::prelude::*;

verus! {

/// Length of one gate cycle, in seconds.
pub const STAKE_WINDOW_CYCLE: i64 = 600;

/// Length of the open sub-window at the start of each cycle, in seconds.
pub const STAKE_WINDOW_OPEN: i64 = 300;

/// Whether a boost deposit at time `t` is admitted: only in the first
/// `STAKE_WINDOW_OPEN` seconds of each `STAKE_WINDOW_CYCLE`-second cycle.
pub open spec fn spec_stake_window_open(t: i64) -> bool {
    t % STAKE_WINDOW_CYCLE < STAKE_WINDOW_OPEN
}

pub fn stake_window_open(t: i64) -> (r: bool)
    requires
        t >= 0,
    ensures
        r == spec_stake_window_open(t),
{
    t % STAKE_WINDOW_CYCLE < STAKE_WINDOW_OPEN
}

} // verus!
