//! Whether the position of a trading place has to be closed.

use crate::amount::Amount;
use crate::time::Duration;
use vstd::prelude::*;

verus! {

/// Time that the closing of the active positions is given, in nanoseconds:
/// thirty seconds.
pub const CLOSE_POSITIONS_TIMEOUT_NANOS: i64 = 30_000_000_000;

/// What is to be done about the position of a trading place.
#[derive(Clone, Copy, Debug, PartialEq, Eq)]
pub enum PositionClosing {
    /// Nothing: no position is known, or it is flat.
    NotNeeded,
    /// The active positions are to be closed within the given time.
    CloseActivePositions { timeout: Duration },
}

/// Decides whether the active positions are to be closed, from the position
/// that the balance manager reports for the trading place; `None` stands for
/// no balance manager. They are closed when there is a position and it is not
/// zero.
pub fn close_position_if_needed(position: Option<Amount>) -> (r: PositionClosing)
    ensures
        match position {
            Some(held) => if held@.is_zero() {
                r == PositionClosing::NotNeeded
            } else {
                r == (PositionClosing::CloseActivePositions {
                    timeout: Duration { nanos: CLOSE_POSITIONS_TIMEOUT_NANOS },
                })
            },
            None => r == PositionClosing::NotNeeded,
        },
{
    match position {
        Some(held) => {
            if held.is_zero() {
                PositionClosing::NotNeeded
            } else {
                PositionClosing::CloseActivePositions {
                    timeout: Duration::nanoseconds(CLOSE_POSITIONS_TIMEOUT_NANOS),
                }
            }
        },
        None => PositionClosing::NotNeeded,
    }
}

} // verus!
