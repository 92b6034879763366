//! Threshold evaluator: decides whether a control-node status satisfies the
//! configured minimum cycles threshold.

use vstd::prelude::*;
use crate::types::{SegmentStatus, StatusesConfig};

verus! {

/// Hard floor under which no operator-supplied threshold may fall.
pub const CYCLES_MIN_THRESHOLD: u128 = 500_000_000_000;

/// The configured threshold that applies to the control node: its dedicated
/// setting when present, else the general one, else nothing.
pub open spec fn spec_resolved_threshold(config: StatusesConfig) -> Option<u128> {
    match config.mission_control_cycles_threshold {
        Some(t) => Some(t),
        None => config.cycles_threshold,
    }
}

/// The threshold actually compared against: the resolved value clamped
/// upward to the floor, or the floor itself when nothing is configured.
pub open spec fn spec_effective_threshold(config: StatusesConfig) -> u128 {
    match spec_resolved_threshold(config) {
        None => CYCLES_MIN_THRESHOLD,
        Some(t) => if t < CYCLES_MIN_THRESHOLD {
            CYCLES_MIN_THRESHOLD
        } else {
            t
        },
    }
}

/// Whether a unit's snapshot meets the effective threshold.
pub open spec fn spec_meets_threshold(config: StatusesConfig, status: SegmentStatus) -> bool {
    status.status.cycles >= spec_effective_threshold(config)
}

/// True iff the status has at least the effective threshold of cycles left.
/// Pure and total: no error case.
pub fn assert_threshold(config: &StatusesConfig, segment_status: &SegmentStatus) -> (r: bool)
    ensures
        r == spec_meets_threshold(*config, *segment_status),
{
    let config_threshold = match config.mission_control_cycles_threshold {
        None => config.cycles_threshold,
        Some(mission_control_cycles_threshold) => Some(mission_control_cycles_threshold),
    };

    let cycles_threshold = match config_threshold {
        None => CYCLES_MIN_THRESHOLD,
        Some(threshold) => {
            if threshold < CYCLES_MIN_THRESHOLD {
                CYCLES_MIN_THRESHOLD
            } else {
                threshold
            }
        },
    };

    segment_status.status.cycles >= cycles_threshold
}

/// The control node's dedicated setting takes precedence: whenever it is
/// set to some value, the effective threshold is that value clamped to the
/// floor, whatever the general `cycles_threshold` says.
pub proof fn lemma_mission_control_threshold_takes_precedence(config: StatusesConfig, v: u128)
    requires
        config.mission_control_cycles_threshold == Some(v),
    ensures
        spec_effective_threshold(config) == if v < CYCLES_MIN_THRESHOLD {
            CYCLES_MIN_THRESHOLD
        } else {
            v
        },
{
}

/// The effective threshold never falls below the floor: a weaker configured
/// value is silently raised to it.
pub proof fn lemma_effective_threshold_clamped(config: StatusesConfig)
    ensures
        spec_effective_threshold(config) >= CYCLES_MIN_THRESHOLD,
{
}

} // verus!
