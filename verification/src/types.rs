//! Data model of the fleet: unit identities, raw status snapshots, normalized
//! per-unit results, per-invocation configuration, and the aggregate report.

use vstd::prelude::*;

verus! {

/// Identifier of a unit: the control node or one satellite. Control-node and
/// satellite identifiers share this representation but are drawn from
/// disjoint namespaces by the caller.
#[derive(Clone, Copy, PartialEq, Eq, Structural, Debug, Hash)]
pub struct UnitId {
    pub id: u64,
}

/// Descriptive attributes attached to a satellite by the registry; the
/// control node carries none.
#[derive(Clone, PartialEq, Eq, Debug)]
pub struct UnitMetadata {
    pub name: String,
}

/// Resource and health snapshot returned by the external status query for
/// one unit; immutable once obtained.
#[derive(Clone, Copy, PartialEq, Eq, Structural, Debug)]
pub struct RawStatus {
    /// Operating-budget counter compared against the threshold.
    pub cycles: u128,
    /// When the snapshot was taken.
    pub status_at: u64,
}

/// Normalized per-unit result: the queried unit's identity, its registry
/// metadata if it is a satellite, and the snapshot obtained for it.
#[derive(Clone, PartialEq, Eq, Debug)]
pub struct SegmentStatus {
    pub id: UnitId,
    pub metadata: Option<UnitMetadata>,
    pub status: RawStatus,
    pub status_at: u64,
}

/// Outcome of querying one unit: the normalized status, or the opaque cause
/// of the failure. Failures are data, never control-flow exceptions.
pub type SegmentStatusResult = Result<SegmentStatus, String>;

/// One satellite as the registry knows it.
#[derive(Clone, PartialEq, Eq, Debug)]
pub struct Satellite {
    pub metadata: UnitMetadata,
}

/// Per-satellite override supplied by the caller.
#[derive(Clone, Copy, PartialEq, Eq, Structural, Debug)]
pub struct SatelliteConfig {
    pub enabled: bool,
}

/// Mapping from satellite identifier to its override; a satellite absent
/// from the mapping defaults to enabled.
#[derive(Clone, PartialEq, Eq, Debug)]
pub struct SatelliteStatusConfig {
    pub entries: Vec<(UnitId, SatelliteConfig)>,
}

/// Invocation-scoped configuration of one aggregation call.
#[derive(Clone, PartialEq, Eq, Debug)]
pub struct StatusesConfig {
    pub cycles_threshold: Option<u128>,
    pub mission_control_cycles_threshold: Option<u128>,
    pub satellites: SatelliteStatusConfig,
}

/// Final aggregate report. `satellites` is absent exactly when the early-exit
/// rule fired on the control node's first check.
#[derive(PartialEq, Eq, Debug)]
pub struct SegmentsStatuses {
    pub mission_control: SegmentStatusResult,
    pub satellites: Option<Vec<SegmentStatusResult>>,
}

} // verus!
