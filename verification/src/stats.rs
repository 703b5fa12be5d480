//! Pet stats: the closed set of five stats and a record of their values.

use vstd::prelude::*;

verus! {

/// The closed enumeration of pet stats.
#[derive(Clone, Copy, Debug, PartialEq, Eq, Structural)]
pub enum Stat {
    Health,
    Strength,
    Stamina,
    Intelligence,
    Luck,
}

/// A value for each of the five stats.
#[derive(Clone, Copy, Debug, PartialEq, Eq, Structural)]
pub struct PetStats {
    pub health: u16,
    pub strength: u16,
    pub stamina: u16,
    pub intelligence: u16,
    pub luck: u16,
}

/// Which `Stat` a textual stat name denotes. Unrecognized input defaults
/// to `Health`: a documented quirk of the request surface, kept as the
/// engine's unknown-input policy.
pub open spec fn stat_of_string(s: Seq<char>) -> Stat {
    if s == "Health"@ {
        Stat::Health
    } else if s == "Strength"@ {
        Stat::Strength
    } else if s == "Stamina"@ {
        Stat::Stamina
    } else if s == "Intelligence"@ {
        Stat::Intelligence
    } else if s == "Luck"@ {
        Stat::Luck
    } else {
        Stat::Health
    }
}

impl Stat {
    /// Parses a stat name, defaulting to `Health` on unrecognized input.
    pub fn from_string(str: String) -> (r: Self)
        ensures
            r == stat_of_string(str@),
    {
        if str == String::from_str("Health") {
            Stat::Health
        } else if str == String::from_str("Strength") {
            Stat::Strength
        } else if str == String::from_str("Stamina") {
            Stat::Stamina
        } else if str == String::from_str("Intelligence") {
            Stat::Intelligence
        } else if str == String::from_str("Luck") {
            Stat::Luck
        } else {
            Stat::Health
        }
    }
}

impl PetStats {
    /// The value this record holds for `stat`.
    pub open spec fn spec_get_stat(self, stat: Stat) -> u16 {
        match stat {
            Stat::Health => self.health,
            Stat::Strength => self.strength,
            Stat::Stamina => self.stamina,
            Stat::Intelligence => self.intelligence,
            Stat::Luck => self.luck,
        }
    }

    /// `self` with `stat` set to `new_value` and every other stat unchanged.
    pub open spec fn spec_set_stat(self, stat: Stat, new_value: u16) -> PetStats {
        match stat {
            Stat::Health => PetStats { health: new_value, ..self },
            Stat::Strength => PetStats { strength: new_value, ..self },
            Stat::Stamina => PetStats { stamina: new_value, ..self },
            Stat::Intelligence => PetStats { intelligence: new_value, ..self },
            Stat::Luck => PetStats { luck: new_value, ..self },
        }
    }

    /// Every stat of `self` is at most the matching stat of `bound`.
    pub open spec fn le(self, bound: PetStats) -> bool {
        self.health <= bound.health && self.strength <= bound.strength && self.stamina
            <= bound.stamina && self.intelligence <= bound.intelligence && self.luck <= bound.luck
    }

    pub fn new(health: u16, strength: u16, stamina: u16, intelligence: u16, luck: u16) -> (r:
        Self)
        ensures
            r == (PetStats { health, strength, stamina, intelligence, luck }),
    {
        PetStats { health, strength, stamina, intelligence, luck }
    }

    pub fn get_stat(&self, stat: Stat) -> (r: u16)
        ensures
            r == self.spec_get_stat(stat),
    {
        match stat {
            Stat::Health => self.health,
            Stat::Strength => self.strength,
            Stat::Stamina => self.stamina,
            Stat::Intelligence => self.intelligence,
            Stat::Luck => self.luck,
        }
    }

    /// `le` says of each stat field what it says of every `Stat`: the
    /// record stays within `bound` exactly when every stat does.
    pub proof fn lemma_le_is_stat_wise(self, bound: PetStats)
        ensures
            self.le(bound) <==> (forall|s: Stat| self.spec_get_stat(s) <= bound.spec_get_stat(s)),
    {
        if forall|s: Stat| self.spec_get_stat(s) <= bound.spec_get_stat(s) {
            assert(self.spec_get_stat(Stat::Health) <= bound.spec_get_stat(Stat::Health));
            assert(self.spec_get_stat(Stat::Strength) <= bound.spec_get_stat(Stat::Strength));
            assert(self.spec_get_stat(Stat::Stamina) <= bound.spec_get_stat(Stat::Stamina));
            assert(self.spec_get_stat(Stat::Intelligence) <= bound.spec_get_stat(
                Stat::Intelligence,
            ));
            assert(self.spec_get_stat(Stat::Luck) <= bound.spec_get_stat(Stat::Luck));
        }
        if self.le(bound) {
            assert forall|s: Stat| self.spec_get_stat(s) <= bound.spec_get_stat(s) by {
                match s {
                    Stat::Health => {},
                    Stat::Strength => {},
                    Stat::Stamina => {},
                    Stat::Intelligence => {},
                    Stat::Luck => {},
                }
            }
        }
    }

    pub fn set_stat(&mut self, stat: Stat, new_value: u16)
        ensures
            *final(self) == old(self).spec_set_stat(stat, new_value),
    {
        match stat {
            Stat::Health => self.health = new_value,
            Stat::Strength => self.strength = new_value,
            Stat::Stamina => self.stamina = new_value,
            Stat::Intelligence => self.intelligence = new_value,
            Stat::Luck => self.luck = new_value,
        }
    }
}

} // verus!
