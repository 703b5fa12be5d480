//! Battles: pairwise wagered contests between two pets, resolved by
//! comparing their stats.

use vstd::prelude::*;

use crate::stats::PetStats;

verus! {

/// The stored state of a battle. A battle is removed outright when it is
/// declined or cancelled, so there is no state for that.
#[derive(Clone, Copy, Debug, PartialEq, Eq, Structural)]
pub enum BattleStatus {
    /// Proposed and awaiting the challenged side's response.
    Pending,
    /// Accepted and resolved; the record persists as an audit trail.
    Accepted,
}

/// A battle record, identified by a monotonically increasing numeric id.
#[derive(Debug, PartialEq, Eq)]
pub struct BattleInfo {
    pub id: u64,
    /// The proposing side, which paid the wager up front.
    pub initiator_address: String,
    /// The initiator's pet.
    pub pet_id: String,
    /// The challenged pet.
    pub other_pet_id: String,
    pub wager: u64,
    pub status: BattleStatus,
    /// `Some(true)` if `pet_id` won; set exactly when the battle is
    /// accepted.
    pub outcome: Option<bool>,
}

/// A battle record as shown to a querying player, without the initiator's
/// address.
#[derive(Debug, PartialEq, Eq)]
pub struct BattleInfoWithoutInitiator {
    pub id: u64,
    pub pet_id: String,
    pub other_pet_id: String,
    pub wager: u64,
    pub status: BattleStatus,
    pub outcome: Option<bool>,
}

impl Clone for BattleInfo {
    fn clone(&self) -> (r: Self)
        ensures
            r == *self,
    {
        let r = BattleInfo {
            id: self.id,
            initiator_address: self.initiator_address.clone(),
            pet_id: self.pet_id.clone(),
            other_pet_id: self.other_pet_id.clone(),
            wager: self.wager,
            status: self.status,
            outcome: self.outcome,
        };
        proof {
            assert(r.initiator_address == self.initiator_address);
            assert(r.pet_id == self.pet_id);
            assert(r.other_pet_id == self.other_pet_id);
        }
        r
    }
}

impl BattleInfo {
    /// The public shape of the record, with the initiator's address
    /// dropped.
    pub open spec fn spec_without_initiator(self) -> BattleInfoWithoutInitiator {
        BattleInfoWithoutInitiator {
            id: self.id,
            pet_id: self.pet_id,
            other_pet_id: self.other_pet_id,
            wager: self.wager,
            status: self.status,
            outcome: self.outcome,
        }
    }

    pub fn without_initiator(&self) -> (r: BattleInfoWithoutInitiator)
        ensures
            r == self.spec_without_initiator(),
    {
        let r = BattleInfoWithoutInitiator {
            id: self.id,
            pet_id: self.pet_id.clone(),
            other_pet_id: self.other_pet_id.clone(),
            wager: self.wager,
            status: self.status,
            outcome: self.outcome,
        };
        proof {
            assert(r.pet_id == self.pet_id);
            assert(r.other_pet_id == self.other_pet_id);
        }
        r
    }
}

/// One point for the first side if its stat value is strictly greater,
/// none for a tie.
pub open spec fn stat_point(a: u16, b: u16) -> int {
    if a > b {
        1
    } else {
        0
    }
}

/// How many of the five stat comparisons the first side wins outright.
pub open spec fn stat_wins(a: PetStats, b: PetStats) -> int {
    stat_point(a.strength, b.strength) + stat_point(a.stamina, b.stamina) + stat_point(
        a.intelligence,
        b.intelligence,
    ) + stat_point(a.health, b.health) + stat_point(a.luck, b.luck)
}

/// True exactly when the first pet wins: it must take strictly more stat
/// comparisons than the second. On a full tie the first pet does not win,
/// so ties favor the second pet.
pub open spec fn spec_battle_outcome(a: PetStats, b: PetStats) -> bool {
    stat_wins(a, b) > stat_wins(b, a)
}

/// Resolves a battle between a pet with current stats `pet` and one with
/// current stats `other_pet`: each of the five stats awards a point to the
/// strictly greater side, and the first pet wins only with strictly more
/// points.
pub fn battle_pets(pet: &PetStats, other_pet: &PetStats) -> (r: bool)
    ensures
        r == spec_battle_outcome(*pet, *other_pet),
{
    let mut pet_wins: u32 = 0;
    let mut other_wins: u32 = 0;

    if pet.strength > other_pet.strength {
        pet_wins += 1;
    } else if pet.strength < other_pet.strength {
        other_wins += 1;
    }
    if pet.stamina > other_pet.stamina {
        pet_wins += 1;
    } else if pet.stamina < other_pet.stamina {
        other_wins += 1;
    }
    if pet.intelligence > other_pet.intelligence {
        pet_wins += 1;
    } else if pet.intelligence < other_pet.intelligence {
        other_wins += 1;
    }
    if pet.health > other_pet.health {
        pet_wins += 1;
    } else if pet.health < other_pet.health {
        other_wins += 1;
    }
    if pet.luck > other_pet.luck {
        pet_wins += 1;
    } else if pet.luck < other_pet.luck {
        other_wins += 1;
    }

    pet_wins > other_wins
}

} // verus!
