//! Enable/disable filtering of the satellite fleet: a satellite absent from
//! the per-invocation configuration is polled by default; one present is
//! polled iff its entry says `enabled`.

use vstd::prelude::*;
use crate::types::{Satellite, SatelliteConfig, SatelliteStatusConfig, UnitId};

verus! {

/// The override recorded for `id`: the first entry carrying that identifier,
/// or nothing when no entry does.
pub open spec fn spec_lookup(entries: Seq<(UnitId, SatelliteConfig)>, id: UnitId) -> Option<
    SatelliteConfig,
>
    decreases entries.len(),
{
    if entries.len() == 0 {
        None
    } else if entries[0].0 == id {
        Some(entries[0].1)
    } else {
        spec_lookup(entries.drop_first(), id)
    }
}

/// Whether the configuration leaves the satellite `id` enabled: enabled by
/// default when absent, else as its entry says.
pub open spec fn spec_enabled(config: SatelliteStatusConfig, id: UnitId) -> bool {
    match spec_lookup(config.entries@, id) {
        None => true,
        Some(c) => c.enabled,
    }
}

/// True iff the configuration leaves the satellite `satellite_id` enabled.
/// The lookup is explicit, with an explicit default, so that a missing entry
/// can never silently disable a unit.
pub fn filter_enabled_satellite_status(
    satellite_id: &UnitId,
    satellites_config: &SatelliteStatusConfig,
) -> (r: bool)
    ensures
        r == spec_enabled(*satellites_config, *satellite_id),
{
    let entries = &satellites_config.entries;
    let n = entries.len();
    let mut i: usize = 0;
    proof {
        assert(entries@.skip(0) =~= entries@);
    }
    while i < n
        invariant
            i <= n,
            n == entries.len(),
            entries == satellites_config.entries,
            spec_lookup(entries@, *satellite_id) == spec_lookup(
                entries@.skip(i as int),
                *satellite_id,
            ),
        decreases n - i,
    {
        proof {
            assert(entries@.skip(i as int)[0] == entries@[i as int]);
            assert(entries@.skip(i as int).drop_first() =~= entries@.skip(i as int + 1));
        }
        if entries[i].0 == *satellite_id {
            return entries[i].1.enabled;
        }
        i = i + 1;
    }
    proof {
        assert(entries@.skip(n as int) =~= Seq::<(UnitId, SatelliteConfig)>::empty());
    }
    true
}

/// The registry entries that the configuration leaves enabled, in registry
/// order, each with its metadata untouched.
pub fn enabled_satellites(
    registry: Vec<(UnitId, Satellite)>,
    satellites_config: &SatelliteStatusConfig,
) -> (r: Vec<(UnitId, Satellite)>)
    ensures
        r@ == registry@.filter(
            |p: (UnitId, Satellite)| spec_enabled(*satellites_config, p.0),
        ),
{
    let ghost pred = |p: (UnitId, Satellite)| spec_enabled(*satellites_config, p.0);
    let ghost orig = registry@;
    let mut rest = registry;
    let mut r: Vec<(UnitId, Satellite)> = Vec::new();
    let ghost mut i: int = 0;
    while rest.len() > 0
        invariant
            0 <= i <= orig.len(),
            rest@ == orig.skip(i),
            pred == (|p: (UnitId, Satellite)| spec_enabled(*satellites_config, p.0)),
            r@ == orig.take(i).filter(pred),
        decreases rest.len(),
    {
        let p = rest.remove(0);
        proof {
            assert(orig.skip(i)[0] == orig[i]);
            assert(orig.skip(i).remove(0) =~= orig.skip(i + 1));
            reveal(Seq::filter);
            assert(orig.take(i + 1).drop_last() =~= orig.take(i));
            assert(orig.take(i + 1).last() == orig[i]);
        }
        let keep = filter_enabled_satellite_status(&p.0, satellites_config);
        if keep {
            r.push(p);
        }
        proof {
            i = i + 1;
        }
    }
    proof {
        assert(orig.skip(i).len() == orig.len() - i);
        assert(orig.take(orig.len() as int) =~= orig);
    }
    r
}

} // verus!
