//! Pet lifecycle requests: minting, stat upgrades and release.

use rand::rngs::SmallRng;
use vstd::prelude::*;
use vstd::pervasive::VecAdditionalExecFns;

use crate::economy::{burn_loot, PetMintInstruction, TokenInstruction};
use crate::error::Error;
use crate::pet::{get_cost_of_stat_upgrade, spec_cost_of_stat_upgrade, PetState};
use crate::quest::{Quest, QuestType};
use crate::randomness::{gen_range_u16, generate_seed, rng_from_seed};
use crate::stats::{PetStats, Stat};
use crate::store::{
    has_addr, has_pet, lemma_counter_id_fresh, lemma_from_counter_monotone,
    lemma_pet_ids_pointwise, pet_id_from_counter, pet_index, AddressQuests, Store,
};
use crate::token_id::{pet_token_id, pet_token_id_seq};

verus! {

/// Every stat of `s` lies in `lo..=hi`.
pub open spec fn stats_in_range(s: PetStats, lo: int, hi: int) -> bool {
    &&& lo <= s.health <= hi
    &&& lo <= s.strength <= hi
    &&& lo <= s.stamina <= hi
    &&& lo <= s.intelligence <= hi
    &&& lo <= s.luck <= hi
}

/// The per-stat upgrade costs recorded at mint time: five times each
/// initial stat.
pub open spec fn spec_upgrade_costs(s: PetStats) -> PetStats {
    PetStats {
        health: (s.health * 5) as u16,
        strength: (s.strength * 5) as u16,
        stamina: (s.stamina * 5) as u16,
        intelligence: (s.intelligence * 5) as u16,
        luck: (s.luck * 5) as u16,
    }
}

/// What a freshly minted pet looks like: off any quest, current stats
/// sampled in `5..=8`, maxes sampled in `12..=max_stats`, and the
/// informational upgrade costs derived from the initial stats.
pub open spec fn spec_minted_pet_ok(p: PetState, id: Seq<char>, max_stats: u16) -> bool {
    &&& p.pet_id@ == id
    &&& p.on_quest is None
    &&& stats_in_range(p.current, 5, 8)
    &&& stats_in_range(p.max, 12, max_stats as int)
    &&& p.current.le(p.max)
    &&& p.upgrade_costs == spec_upgrade_costs(p.current)
}

/// What a freshly generated quest slot looks like: idle, sampled fields
/// in range, and no difficulty ramp yet.
pub open spec fn spec_fresh_quest(q: Quest, t: QuestType) -> bool {
    &&& q.quest_type == t
    &&& q.pet_id is None
    &&& !q.awaiting_claiming
    &&& q.finished_exploring is None
    &&& q.finished_cooldown is None
    &&& q.rolled_wf()
    &&& q.difficulty_increment == 0
}

/// The batch of four quests created when an address mints its first pet,
/// in creation order.
pub open spec fn spec_new_quest_list_ok(list: Seq<Quest>) -> bool {
    &&& list.len() == 4
    &&& spec_fresh_quest(list[0], QuestType::TrialOfResilience)
    &&& spec_fresh_quest(list[1], QuestType::TrialOfEndurance)
    &&& spec_fresh_quest(list[2], QuestType::TrialOfTitans)
    &&& spec_fresh_quest(list[3], QuestType::TrialOfWisdom)
}

/// The pet record after `stat` was raised by one.
pub open spec fn spec_upgraded_pet(p: PetState, stat: Stat) -> PetState {
    PetState {
        current: p.current.spec_set_stat(stat, (p.current.spec_get_stat(stat) + 1) as u16),
        ..p
    }
}

impl Store {
    /// Samples a fresh quest slot of type `quest_type`.
    fn roll_fresh_quest(&self, quest_type: QuestType, rng: &mut SmallRng) -> (q: Quest)
        ensures
            spec_fresh_quest(q, quest_type),
    {
        let base_loot = gen_range_u16(rng, 1, 5);
        let difficulty = gen_range_u16(rng, 1, 3);
        Quest {
            pet_id: None,
            quest_type,
            awaiting_claiming: false,
            finished_exploring: None,
            finished_cooldown: None,
            base_loot,
            difficulty,
            difficulty_increment: 0,
        }
    }

    /// Samples and stores a new pet record under `pet_id`: current stats
    /// in `5..=8`, maxes in `12..=max_stats`, and the derived upgrade
    /// costs.
    fn generate_new_pet(&mut self, pet_id: String, rng: &mut SmallRng)
        requires
            old(self).config.max_stats >= 12,
        ensures
            final(self).pets@ == old(self).pets@.push(final(self).pets@.last()),
            spec_minted_pet_ok(
                final(self).pets@.last(),
                pet_id@,
                old(self).config.max_stats,
            ),
            final(self).config == old(self).config,
            final(self).pet_counter == old(self).pet_counter,
            final(self).battle_counter == old(self).battle_counter,
            final(self).quests@ == old(self).quests@,
            final(self).quest_history@ == old(self).quest_history@,
            final(self).battles@ == old(self).battles@,
            final(self).pet_battles@ == old(self).pet_battles@,
    {
        let max_stat_value = self.config.max_stats;
        let pet_stats = PetStats::new(
            gen_range_u16(rng, 5, 8),
            gen_range_u16(rng, 5, 8),
            gen_range_u16(rng, 5, 8),
            gen_range_u16(rng, 5, 8),
            gen_range_u16(rng, 5, 8),
        );
        let pet_maxes = PetStats::new(
            gen_range_u16(rng, 12, max_stat_value),
            gen_range_u16(rng, 12, max_stat_value),
            gen_range_u16(rng, 12, max_stat_value),
            gen_range_u16(rng, 12, max_stat_value),
            gen_range_u16(rng, 12, max_stat_value),
        );
        let pet_state = PetState {
            pet_id,
            on_quest: None,
            current: pet_stats,
            max: pet_maxes,
            upgrade_costs: PetStats {
                health: pet_stats.health * 5,
                strength: pet_stats.strength * 5,
                stamina: pet_stats.stamina * 5,
                intelligence: pet_stats.intelligence * 5,
                luck: pet_stats.luck * 5,
            },
        };
        self.pets.push(pet_state);
    }

    /// Creates the batch of four quests for an address's first pet.
    fn generate_new_quests_for_addr(&mut self, address: String, rng: &mut SmallRng)
        ensures
            final(self).quests@ == old(self).quests@.push(final(self).quests@.last()),
            final(self).quests@.last().address == address,
            spec_new_quest_list_ok(final(self).quests@.last().quests@),
            final(self).config == old(self).config,
            final(self).pet_counter == old(self).pet_counter,
            final(self).battle_counter == old(self).battle_counter,
            final(self).pets@ == old(self).pets@,
            final(self).quest_history@ == old(self).quest_history@,
            final(self).battles@ == old(self).battles@,
            final(self).pet_battles@ == old(self).pet_battles@,
    {
        let mut quests: Vec<Quest> = Vec::new();
        quests.push(self.roll_fresh_quest(QuestType::TrialOfResilience, rng));
        quests.push(self.roll_fresh_quest(QuestType::TrialOfEndurance, rng));
        quests.push(self.roll_fresh_quest(QuestType::TrialOfTitans, rng));
        quests.push(self.roll_fresh_quest(QuestType::TrialOfWisdom, rng));
        self.quests.push(AddressQuests { address, quests });
    }

    /// Mints a new pet for `caller`, owned by `recipient` in the external
    /// registry: allocates the next sequential token id, samples the
    /// pet's stats from the request's deterministic seed, and, on the
    /// address's first mint, creates its batch of four quests. Returns
    /// the new token id and the registry mint instruction the host must
    /// forward.
    pub fn mint_pet(&mut self, caller: &String, recipient: String, now: u64) -> (r: (
        String,
        PetMintInstruction,
    ))
        requires
            old(self).wf(),
            old(self).pet_counter < u64::MAX,
        ensures
            final(self).wf(),
            r.0@ == pet_token_id_seq(old(self).pet_counter),
            r.1.token_id@ == pet_token_id_seq(old(self).pet_counter),
            r.1.owner == recipient,
            final(self).pet_counter == old(self).pet_counter + 1,
            final(self).pets@ == old(self).pets@.push(final(self).pets@.last()),
            spec_minted_pet_ok(
                final(self).pets@.last(),
                pet_token_id_seq(old(self).pet_counter),
                old(self).config.max_stats,
            ),
            has_addr(old(self).quests@, caller@) ==> final(self).quests@ == old(self).quests@,
            !has_addr(old(self).quests@, caller@) ==> {
                &&& final(self).quests@ == old(self).quests@.push(final(self).quests@.last())
                &&& final(self).quests@.last().address == *caller
                &&& spec_new_quest_list_ok(final(self).quests@.last().quests@)
            },
            final(self).config == old(self).config,
            final(self).battle_counter == old(self).battle_counter,
            final(self).quest_history@ == old(self).quest_history@,
            final(self).battles@ == old(self).battles@,
            final(self).pet_battles@ == old(self).pet_battles@,
    {
        let next_pet_id = self.pet_counter;
        let token_id = pet_token_id(next_pet_id);
        self.pet_counter = next_pet_id + 1;

        let seed = generate_seed(caller.as_str(), now, self.config.entropy.as_str());
        let mut rng = rng_from_seed(seed);
        self.generate_new_pet(token_id.clone(), &mut rng);

        proof {
            lemma_counter_id_fresh(old(self).pets@, next_pet_id);
            lemma_from_counter_monotone(old(self).pets@, next_pet_id, self.pet_counter);
            assert(pet_id_from_counter(self.pets@.last().pet_id@, self.pet_counter));
        }

        let instruction = PetMintInstruction { token_id: token_id.clone(), owner: recipient };

        let has_quests = self.find_addr_quests(caller).is_some();
        if !has_quests {
            let mut rng2 = rng_from_seed(seed);
            self.generate_new_quests_for_addr(caller.clone(), &mut rng2);
            proof {
                let qs = self.quests@;
                assert forall|i: int, j: int| 0 <= i < j < qs.len() implies (
                #[trigger] qs[i].address@) != (#[trigger] qs[j].address@) by {
                    if j == qs.len() - 1 {
                        assert(!has_addr(old(self).quests@, caller@));
                        assert(old(self).quests@[i].address@ != caller@);
                    }
                }
                let list = self.quests@.last().quests@;
                assert(crate::store::quest_list_wf(list)) by {
                    assert(spec_new_quest_list_ok(list));
                    assert forall|i: int, j: int| 0 <= i < j < list.len() implies (
                    #[trigger] list[i].quest_type) != (#[trigger] list[j].quest_type) by {}
                }
            }
        }

        (token_id, instruction)
    }

    /// Upgrading never pushes a stat past its cap, never touches any
    /// other record, and is paid for by a burn of five times the stat's
    /// value before the increment. Fails with `Unauthorized` unless the
    /// registry-reported `owner` is the caller, `NotFound` for an unknown
    /// pet, `InvalidState` when the stat is already at its cap, and
    /// `InsufficientFunds` when `balance` is below the cost; each failure
    /// leaves the store unchanged.
    pub fn upgrade_pet_stats(
        &mut self,
        caller: &String,
        owner: &String,
        balance: u64,
        pet_id: &String,
        stat: Stat,
    ) -> (r: Result<TokenInstruction, Error>)
        requires
            old(self).wf(),
        ensures
            final(self).wf(),
            match old(self).spec_upgrade_guard(caller@, owner@, balance, pet_id@, stat) {
                Err(e) => r == Err::<TokenInstruction, Error>(e) && *final(self) == *old(self),
                Ok(()) => {
                    let i = pet_index(old(self).pets@, pet_id@);
                    let p = old(self).pets@[i];
                    let cost = spec_cost_of_stat_upgrade(p.current, stat);
                    &&& r == Ok::<TokenInstruction, Error>(
                        TokenInstruction::Burn { owner: *caller, amount: cost as u64 },
                    )
                    &&& final(self).pets@ == old(self).pets@.update(i, spec_upgraded_pet(p, stat))
                    &&& final(self).config == old(self).config
                    &&& final(self).pet_counter == old(self).pet_counter
                    &&& final(self).battle_counter == old(self).battle_counter
                    &&& final(self).quests@ == old(self).quests@
                    &&& final(self).quest_history@ == old(self).quest_history@
                    &&& final(self).battles@ == old(self).battles@
                    &&& final(self).pet_battles@ == old(self).pet_battles@
                },
            },
    {
        if !strings_equal(owner, caller) {
            return Err(Error::Unauthorized);
        }
        let found = self.find_pet(pet_id);
        let i = match found {
            Some(i) => i,
            None => {
                return Err(Error::NotFound);
            },
        };
        let current_value = self.pets[i].current.get_stat(stat);
        let max_value = self.pets[i].max.get_stat(stat);
        if current_value >= max_value {
            return Err(Error::InvalidState);
        }
        let cost = get_cost_of_stat_upgrade(&self.pets[i].current, stat);
        if balance < cost {
            return Err(Error::InsufficientFunds);
        }

        let mut pet = self.pets[i].clone();
        pet.current.set_stat(stat, current_value + 1);
        self.pets.set(i, pet);

        proof {
            let ghost i_ = i as int;
            lemma_pet_ids_pointwise(old(self).pets@, self.pets@, self.pet_counter);
            assert forall|k: int| 0 <= k < self.pets@.len() implies (
            #[trigger] self.pets@[k]).current.le(self.pets@[k].max) by {
                if k != i_ {
                    assert(self.pets@[k] == old(self).pets@[k]);
                }
            }
        }
        Ok(burn_loot(caller.clone(), cost))
    }

    /// Which error, if any, an upgrade request is rejected with; `Ok`
    /// exactly on the requests that succeed.
    pub open spec fn spec_upgrade_guard(
        self,
        caller: Seq<char>,
        owner: Seq<char>,
        balance: u64,
        pet_id: Seq<char>,
        stat: Stat,
    ) -> Result<(), Error> {
        if owner != caller {
            Err(Error::Unauthorized)
        } else if !has_pet(self.pets@, pet_id) {
            Err(Error::NotFound)
        } else {
            let p = self.pets@[pet_index(self.pets@, pet_id)];
            if p.current.spec_get_stat(stat) >= p.max.spec_get_stat(stat) {
                Err(Error::InvalidState)
            } else if (balance as int) < spec_cost_of_stat_upgrade(p.current, stat) {
                Err(Error::InsufficientFunds)
            } else {
                Ok(())
            }
        }
    }

    /// Which error, if any, a release request is rejected with.
    pub open spec fn spec_release_guard(
        self,
        caller: Seq<char>,
        owner: Seq<char>,
        pet_id: Seq<char>,
        now: u64,
    ) -> Result<(), Error> {
        if owner != caller {
            Err(Error::Unauthorized)
        } else if !has_pet(self.pets@, pet_id) {
            Err(Error::NotFound)
        } else {
            let p = self.pets@[pet_index(self.pets@, pet_id)];
            if p.on_quest matches Some(q) && q.finished_exploring matches Some(t) && t > now {
                Err(Error::InvalidState)
            } else {
                Ok(())
            }
        }
    }

    /// Releasing deletes the pet record unconditionally — quest history
    /// is kept independently — but a pet whose quest is still exploring
    /// cannot be released. Fails with `Unauthorized` unless the
    /// registry-reported `owner` is the caller and `NotFound` for an
    /// unknown pet; each failure leaves the store unchanged.
    pub fn release_pet(&mut self, caller: &String, owner: &String, pet_id: &String, now: u64) -> (r:
        Result<(), Error>)
        requires
            old(self).wf(),
        ensures
            final(self).wf(),
            match old(self).spec_release_guard(caller@, owner@, pet_id@, now) {
                Err(e) => r == Err::<(), Error>(e) && *final(self) == *old(self),
                Ok(()) => {
                    &&& r == Ok::<(), Error>(())
                    &&& final(self).pets@ == old(self).pets@.remove(
                        pet_index(old(self).pets@, pet_id@),
                    )
                    &&& final(self).config == old(self).config
                    &&& final(self).pet_counter == old(self).pet_counter
                    &&& final(self).battle_counter == old(self).battle_counter
                    &&& final(self).quests@ == old(self).quests@
                    &&& final(self).quest_history@ == old(self).quest_history@
                    &&& final(self).battles@ == old(self).battles@
                    &&& final(self).pet_battles@ == old(self).pet_battles@
                },
            },
    {
        if !strings_equal(owner, caller) {
            return Err(Error::Unauthorized);
        }
        let found = self.find_pet(pet_id);
        let i = match found {
            Some(i) => i,
            None => {
                return Err(Error::NotFound);
            },
        };
        let still_exploring = match &self.pets[i].on_quest {
            Some(q) => match q.finished_exploring {
                Some(t) => t > now,
                None => false,
            },
            None => false,
        };
        if still_exploring {
            return Err(Error::InvalidState);
        }
        self.pets.remove(i);
        proof {
            let ghost oldp = old(self).pets@;
            let ghost i_ = i as int;
            assert forall|a: int, b: int| 0 <= a < b < self.pets@.len() implies (
            #[trigger] self.pets@[a]).pet_id@ != (#[trigger] self.pets@[b]).pet_id@ by {
                let a0 = if a < i_ { a } else { a + 1 };
                let b0 = if b < i_ { b } else { b + 1 };
                assert(self.pets@[a] == oldp[a0]);
                assert(self.pets@[b] == oldp[b0]);
            }
            assert forall|k: int| 0 <= k < self.pets@.len() implies (
            #[trigger] self.pets@[k]).current.le(self.pets@[k].max) && pet_id_from_counter(
                self.pets@[k].pet_id@,
                self.pet_counter,
            ) by {
                let k0 = if k < i_ { k } else { k + 1 };
                assert(self.pets@[k] == oldp[k0]);
            }
        }
        Ok(())
    }

    /// A pet is available for a quest when its record exists and it is
    /// not already assigned to one.
    pub fn check_pet_availability(&self, pet_id: &String) -> (r: bool)
        requires
            self.wf(),
        ensures
            r == (has_pet(self.pets@, pet_id@) && self.pets@[pet_index(
                self.pets@,
                pet_id@,
            )].on_quest is None),
    {
        match self.find_pet(pet_id) {
            Some(i) => self.pets[i].on_quest.is_none(),
            None => false,
        }
    }

    /// The stored records of all the given pets, in the given order.
    /// Fails with `NotFound` as soon as any id has no record.
    pub fn get_pets(&self, pet_ids: &Vec<String>) -> (r: Result<Vec<PetState>, Error>)
        requires
            self.wf(),
        ensures
            r is Ok <==> (forall|i: int|
                0 <= i < pet_ids@.len() ==> has_pet(self.pets@, (#[trigger] pet_ids@[i])@)),
            r matches Ok(v) ==> v@.len() == pet_ids@.len() && (forall|i: int|
                0 <= i < pet_ids@.len() ==> #[trigger] v@[i] == self.pets@[pet_index(
                    self.pets@,
                    pet_ids@[i]@,
                )]),
            r is Err ==> r == Err::<Vec<PetState>, Error>(Error::NotFound),
    {
        let n = pet_ids.len();
        let mut out: Vec<PetState> = Vec::new();
        let mut i: usize = 0;
        while i < n
            invariant
                self.wf(),
                i <= n,
                n == pet_ids@.len(),
                out@.len() == i,
                forall|j: int| 0 <= j < i ==> has_pet(self.pets@, (#[trigger] pet_ids@[j])@),
                forall|j: int|
                    0 <= j < i ==> #[trigger] out@[j] == self.pets@[pet_index(
                        self.pets@,
                        pet_ids@[j]@,
                    )],
            decreases n - i,
        {
            match self.find_pet(&pet_ids[i]) {
                Some(pi) => {
                    out.push(self.pets[pi].clone());
                },
                None => {
                    return Err(Error::NotFound);
                },
            }
            i += 1;
        }
        Ok(out)
    }

    /// The stored record of a pet, if any.
    pub fn get_pet(&self, pet_id: &String) -> (r: Option<PetState>)
        requires
            self.wf(),
        ensures
            r is Some <==> has_pet(self.pets@, pet_id@),
            r is Some ==> r->0 == self.pets@[pet_index(self.pets@, pet_id@)],
    {
        match self.find_pet(pet_id) {
            Some(i) => Some(self.pets[i].clone()),
            None => None,
        }
    }
}

/// Compares two addresses or ids.
pub(crate) fn strings_equal(a: &String, b: &String) -> (r: bool)
    ensures
        r == (a@ == b@),
{
    *a == *b
}

} // verus!
