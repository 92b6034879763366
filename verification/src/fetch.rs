//! Shaping of a unit's fetch outcome: a successful raw query is wrapped into
//! a normalized `SegmentStatus` carrying the queried unit's identity and its
//! registry metadata; a failure is propagated unchanged, with no metadata
//! attached.

use vstd::prelude::*;
use crate::types::{SegmentStatus, SegmentStatusResult, UnitId, UnitMetadata};

verus! {

/// What shaping a fetch outcome yields: on success, a status under the local
/// identity and metadata, with the snapshot and its timestamp copied from
/// the query; on failure, the error itself.
pub open spec fn spec_segment_result(
    id: UnitId,
    metadata: Option<UnitMetadata>,
    fetched: SegmentStatusResult,
) -> SegmentStatusResult {
    match fetched {
        Err(err) => Err(err),
        Ok(status) => Ok(
            SegmentStatus {
                id,
                metadata,
                status: status.status,
                status_at: status.status_at,
            },
        ),
    }
}

/// Normalizes the outcome of one unit's status query. The caller records the
/// raw outcome to the store before shaping it, so the store reflects every
/// attempt; this function itself has no side effect.
pub fn build_segment_result(
    id: UnitId,
    metadata: Option<UnitMetadata>,
    fetched: SegmentStatusResult,
) -> (r: SegmentStatusResult)
    ensures
        r == spec_segment_result(id, metadata, fetched),
{
    match fetched {
        Err(err) => Err(err),
        Ok(status) => Ok(
            SegmentStatus {
                id,
                metadata,
                status: status.status,
                status_at: status.status_at,
            },
        ),
    }
}

} // verus!
