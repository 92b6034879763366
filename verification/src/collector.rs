//! Aggregation orchestrator, as a state machine over fetch outcomes.
//!
//! One aggregation run proceeds: check the control node first; on an error
//! or a sub-threshold budget, exit early with no satellite polled; otherwise
//! poll every enabled satellite and, independently, re-check the control
//! node, then merge everything into the aggregate report.
//!
//! The machine holds the decisions of that run; the embedding runtime owns
//! the external calls. It queries the control node once and hands the
//! outcome to [`Collector::on_mission_control_checked`]; when that step asks
//! for the fan-out, it polls the enabled satellites and re-queries the
//! control node, handing everything to [`Collector::on_fan_out_completed`].

use vstd::prelude::*;
use crate::threshold::{assert_threshold, spec_meets_threshold};
use crate::types::{SegmentStatusResult, SegmentStatus, SegmentsStatuses, StatusesConfig};

verus! {

/// Where one aggregation run stands.
#[derive(PartialEq, Eq, Debug)]
pub enum CollectorState {
    /// The control node's first check is owed: its outcome decides whether
    /// the fleet is polled at all.
    AwaitingMissionControlCheck,
    /// The first check passed the threshold gate; the satellite fan-out and
    /// the control-node refresh are owed.
    AwaitingFanOut { first_check: SegmentStatus },
    /// The run is over; `statuses` is the aggregate report.
    Completed { statuses: SegmentsStatuses },
}

/// What the machine asks the runtime to do next.
#[derive(PartialEq, Eq, Debug)]
pub enum CollectAction {
    /// Query every enabled satellite concurrently and, independently,
    /// re-query the control node; record each outcome to the store.
    PollSatellitesAndRefresh,
    /// Nothing is left to do: the aggregate report is ready.
    Finished,
}

/// One aggregation run: the invocation's configuration and the run's state.
#[derive(PartialEq, Eq, Debug)]
pub struct Collector {
    pub config: StatusesConfig,
    pub state: CollectorState,
}

/// Whether the control node's first check fires the early-exit rule: it
/// does on an error, and on a budget under the effective threshold.
pub open spec fn spec_early_exit(config: StatusesConfig, check: SegmentStatusResult) -> bool {
    match check {
        Err(_) => true,
        Ok(status) => !spec_meets_threshold(config, status),
    }
}

impl Collector {
    /// Begins a run. The caller owes the machine one control-node check:
    /// query the control node, record the outcome to the store, and hand the
    /// shaped outcome to [`Collector::on_mission_control_checked`].
    pub fn start(config: StatusesConfig) -> (c: Collector)
        ensures
            c.config == config,
            c.state is AwaitingMissionControlCheck,
    {
        Collector { config, state: CollectorState::AwaitingMissionControlCheck }
    }

    /// Applies the threshold gate to the control node's first check. On an
    /// error or a sub-threshold budget the run completes at once, with that
    /// very outcome as the control-node report and no satellite sequence at
    /// all; otherwise the fan-out is requested.
    pub fn on_mission_control_checked(self, check: SegmentStatusResult) -> (r: (
        Collector,
        CollectAction,
    ))
        requires
            self.state is AwaitingMissionControlCheck,
        ensures
            r.0.config == self.config,
            spec_early_exit(self.config, check) ==> r.0.state == (CollectorState::Completed {
                statuses: SegmentsStatuses { mission_control: check, satellites: None },
            }) && r.1 == CollectAction::Finished,
            !spec_early_exit(self.config, check) ==> (check matches Ok(status) && r.0.state == (
            CollectorState::AwaitingFanOut { first_check: status }) && r.1
                == CollectAction::PollSatellitesAndRefresh),
    {
        match check {
            Err(err) => {
                let statuses = SegmentsStatuses { mission_control: Err(err), satellites: None };
                (
                    Collector { config: self.config, state: CollectorState::Completed { statuses } },
                    CollectAction::Finished,
                )
            },
            Ok(segment_status) => {
                if !assert_threshold(&self.config, &segment_status) {
                    let statuses = SegmentsStatuses {
                        mission_control: Ok(segment_status),
                        satellites: None,
                    };
                    (
                        Collector {
                            config: self.config,
                            state: CollectorState::Completed { statuses },
                        },
                        CollectAction::Finished,
                    )
                } else {
                    (
                        Collector {
                            config: self.config,
                            state: CollectorState::AwaitingFanOut {
                                first_check: segment_status,
                            },
                        },
                        CollectAction::PollSatellitesAndRefresh,
                    )
                }
            },
        }
    }

    /// Merges the fan-out's outcomes. The control-node report of the
    /// aggregate is the refreshed check, not the first one; every satellite
    /// outcome is kept, untouched and in the order the fan-out delivered
    /// them — one satellite's failure never displaces another's result.
    pub fn on_fan_out_completed(
        self,
        mission_control: SegmentStatusResult,
        satellites: Vec<SegmentStatusResult>,
    ) -> (c: Collector)
        requires
            self.state is AwaitingFanOut,
        ensures
            c.config == self.config,
            c.state == (CollectorState::Completed {
                statuses: SegmentsStatuses { mission_control, satellites: Some(satellites) },
            }),
    {
        let statuses = SegmentsStatuses { mission_control, satellites: Some(satellites) };
        Collector { config: self.config, state: CollectorState::Completed { statuses } }
    }

    /// Hands the aggregate report of a completed run to the caller.
    pub fn into_statuses(self) -> (statuses: SegmentsStatuses)
        requires
            self.state is Completed,
        ensures
            self.state == (CollectorState::Completed { statuses }),
    {
        match self.state {
            CollectorState::Completed { statuses } => statuses,
            _ => vstd::pervasive::unreached(),
        }
    }
}

} // verus!
