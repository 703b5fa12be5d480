//! Pet records: current stats, per-stat caps, upgrade costs and the quest
//! snapshot a pet carries while it is away.

use vstd::prelude::*;

use crate::quest::Quest;
use crate::stats::{PetStats, Stat};

verus! {

/// A pet's stored record.
#[derive(Debug, PartialEq, Eq)]
pub struct PetState {
    pub pet_id: String,
    /// A snapshot copy of the quest the pet is assigned to, if any; not a
    /// live alias of the quest record, so a later quest update does not
    /// propagate here until explicitly re-synchronized.
    pub on_quest: Option<Quest>,
    pub current: PetStats,
    /// The per-stat upper bound; `current` never exceeds it.
    pub max: PetStats,
    /// Informational per-stat upgrade costs, derived from initial stats.
    pub upgrade_costs: PetStats,
}

impl Clone for PetState {
    fn clone(&self) -> (r: Self)
        ensures
            r == *self,
    {
        let r = PetState {
            pet_id: self.pet_id.clone(),
            on_quest: self.on_quest.clone(),
            current: self.current,
            max: self.max,
            upgrade_costs: self.upgrade_costs,
        };
        proof {
            assert(r.pet_id == self.pet_id);
            assert(r.on_quest == self.on_quest);
        }
        r
    }
}

/// The token cost of raising `stat` by one: five times its value before
/// the increment.
pub open spec fn spec_cost_of_stat_upgrade(pet_stats: PetStats, stat: Stat) -> int {
    pet_stats.spec_get_stat(stat) * 5
}

/// Computes the token cost of upgrading `stat` from its value in
/// `pet_stats`.
pub fn get_cost_of_stat_upgrade(pet_stats: &PetStats, stat: Stat) -> (cost: u64)
    ensures
        cost == spec_cost_of_stat_upgrade(*pet_stats, stat),
{
    let pet_stat = pet_stats.get_stat(stat);
    pet_stat as u64 * 5
}

} // verus!
