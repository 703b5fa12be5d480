//! Quest requests: starting a quest, claiming its rewards with the
//! deterministic outcome and loot computation, and the quest queries.

use vstd::prelude::*;
use vstd::pervasive::VecAdditionalExecFns;

use crate::economy::{mint_loot, TokenInstruction};
use crate::error::Error;
use crate::pet::PetState;
use crate::quest::{
    calculate_loot, calculate_outcome, loot_for_outcome, outcome_label, quest_status,
    quest_type_label, spec_loot, spec_outcome, spec_quest_status, Quest, QuestHistory, QuestOutcome,
    QuestStatus, QuestSummary, QuestType, QUEST_COOLDOWN_SECONDS, QUEST_EXPLORE_TIME_SECONDS,
};
use crate::randomness::{gen_range_u16, generate_seed, rng_from_seed};
use crate::store::{
    addr_index, find_quest_pos, has_addr, has_history, has_pet, has_quest_type, history_index,
    lemma_pet_ids_pointwise, pet_index, quest_pos, AddressHistory, AddressQuests, Store,
};

verus! {

impl Store {
    /// The address owns a quest slot of type `t`.
    pub open spec fn spec_has_quest(self, addr: Seq<char>, t: QuestType) -> bool {
        has_addr(self.quests@, addr) && has_quest_type(
            self.quests@[addr_index(self.quests@, addr)].quests@,
            t,
        )
    }

    /// The quest slot of type `t` owned by `addr`.
    pub open spec fn spec_quest_of(self, addr: Seq<char>, t: QuestType) -> Quest {
        let list = self.quests@[addr_index(self.quests@, addr)].quests@;
        list[quest_pos(list, t)]
    }

    /// The quest exists, has finished exploring, and awaits claiming.
    pub open spec fn spec_awaiting_claim(self, addr: Seq<char>, t: QuestType, now: u64) -> bool {
        &&& self.spec_has_quest(addr, t)
        &&& self.spec_quest_of(addr, t).finished_exploring is Some
        &&& self.spec_quest_of(addr, t).finished_exploring->0 <= now
        &&& self.spec_quest_of(addr, t).awaiting_claiming
    }

    /// A quest can be started when it exists and its derived state is
    /// `Available`: not exploring, not awaiting a claim, not cooling
    /// down.
    pub fn check_quest_availability(&self, address: &String, quest_type: QuestType, now: u64) -> (r:
        bool)
        requires
            self.wf(),
        ensures
            r == (self.spec_has_quest(address@, quest_type) && spec_quest_status(
                self.spec_quest_of(address@, quest_type),
                now,
            ) == QuestStatus::Available),
    {
        let ai = match self.find_addr_quests(address) {
            Some(ai) => ai,
            None => {
                return false;
            },
        };
        let qi = match find_quest_pos(&self.quests[ai].quests, quest_type) {
            Some(qi) => qi,
            None => {
                return false;
            },
        };
        let status = quest_status(&self.quests[ai].quests[qi], now);
        matches!(status, QuestStatus::Available)
    }

    /// A quest's rewards can be claimed when it exists, its exploration
    /// has elapsed, and the claim flag is still up.
    pub fn check_quest_awaiting_claim(&self, address: &String, quest_type: QuestType, now: u64) -> (
        r: bool)
        requires
            self.wf(),
        ensures
            r == self.spec_awaiting_claim(address@, quest_type, now),
    {
        let ai = match self.find_addr_quests(address) {
            Some(ai) => ai,
            None => {
                return false;
            },
        };
        let qi = match find_quest_pos(&self.quests[ai].quests, quest_type) {
            Some(qi) => qi,
            None => {
                return false;
            },
        };
        let quest = &self.quests[ai].quests[qi];
        match quest.finished_exploring {
            Some(finished_exploring) => finished_exploring <= now && quest.awaiting_claiming,
            None => false,
        }
    }

    /// The stored quest slot of type `quest_type` owned by `address`.
    pub fn get_quest(&self, address: &String, quest_type: QuestType) -> (r: Result<Quest, Error>)
        requires
            self.wf(),
        ensures
            self.spec_has_quest(address@, quest_type) ==> r == Ok::<Quest, Error>(
                self.spec_quest_of(address@, quest_type),
            ),
            !self.spec_has_quest(address@, quest_type) ==> r == Err::<Quest, Error>(
                Error::NotFound,
            ),
    {
        let ai = match self.find_addr_quests(address) {
            Some(ai) => ai,
            None => {
                return Err(Error::NotFound);
            },
        };
        let qi = match find_quest_pos(&self.quests[ai].quests, quest_type) {
            Some(qi) => qi,
            None => {
                return Err(Error::NotFound);
            },
        };
        Ok(self.quests[ai].quests[qi].clone())
    }

    /// The append-only quest history of `address`.
    pub fn get_quest_history(&self, address: &String) -> (r: Result<Vec<QuestHistory>, Error>)
        requires
            self.wf(),
        ensures
            has_history(self.quest_history@, address@) ==> (r matches Ok(v) && v@
                == self.quest_history@[history_index(self.quest_history@, address@)].entries@),
            !has_history(self.quest_history@, address@) ==> r == Err::<Vec<QuestHistory>, Error>(
                Error::NotFound,
            ),
    {
        let hi = match self.find_history(address) {
            Some(hi) => hi,
            None => {
                return Err(Error::NotFound);
            },
        };
        let entries = self.quest_history[hi].entries.clone();
        proof {
            assert(entries@ =~= self.quest_history@[hi as int].entries@);
        }
        Ok(entries)
    }

    /// Which error, if any, a start-quest request is rejected with.
    pub open spec fn spec_start_quest_guard(
        self,
        caller: Seq<char>,
        owner: Seq<char>,
        pet_id: Seq<char>,
        t: QuestType,
        now: u64,
    ) -> Result<(), Error> {
        if owner != caller {
            Err(Error::Unauthorized)
        } else if !(has_pet(self.pets@, pet_id) && self.pets@[pet_index(
            self.pets@,
            pet_id,
        )].on_quest is None) {
            Err(Error::InvalidState)
        } else if !(self.spec_has_quest(caller, t) && spec_quest_status(
            self.spec_quest_of(caller, t),
            now,
        ) == QuestStatus::Available) {
            Err(Error::InvalidState)
        } else {
            Ok(())
        }
    }

    /// The quest slot after a start: the pet assigned, the exploration
    /// and cooldown clocks set, and the claim flag up.
    pub open spec fn spec_started_quest(q0: Quest, pet_id: String, now: u64) -> Quest {
        Quest {
            pet_id: Some(pet_id),
            finished_exploring: Some((now + QUEST_EXPLORE_TIME_SECONDS) as u64),
            finished_cooldown: Some((now + QUEST_COOLDOWN_SECONDS) as u64),
            awaiting_claiming: true,
            ..q0
        }
    }

    /// Starts a quest: assigns the pet to the quest slot, stamps the
    /// exploration and cooldown end times, raises the claim flag, and
    /// mirrors the updated slot onto the pet as a snapshot. Fails with
    /// `Unauthorized` unless the registry-reported `owner` is the caller,
    /// and with `InvalidState` when the pet is missing or already on a
    /// quest, or when the quest is missing or not `Available`; each
    /// failure leaves the store unchanged.
    pub fn send_pet_on_quest(
        &mut self,
        caller: &String,
        owner: &String,
        pet_id: &String,
        quest_type: QuestType,
        now: u64,
    ) -> (r: Result<(), Error>)
        requires
            old(self).wf(),
            now <= u64::MAX - QUEST_COOLDOWN_SECONDS,
        ensures
            final(self).wf(),
            match old(self).spec_start_quest_guard(caller@, owner@, pet_id@, quest_type, now) {
                Err(e) => r == Err::<(), Error>(e) && *final(self) == *old(self),
                Ok(()) => {
                    let ai = addr_index(old(self).quests@, caller@);
                    let list = old(self).quests@[ai].quests@;
                    let qi = quest_pos(list, quest_type);
                    let q1 = Self::spec_started_quest(list[qi], *pet_id, now);
                    let pi = pet_index(old(self).pets@, pet_id@);
                    &&& r == Ok::<(), Error>(())
                    &&& final(self).quests@.len() == old(self).quests@.len()
                    &&& final(self).quests@[ai].address == old(self).quests@[ai].address
                    &&& final(self).quests@[ai].quests@ == list.update(qi, q1)
                    &&& forall|j: int|
                        0 <= j < old(self).quests@.len() && j != ai ==> final(self).quests@[j]
                            == old(self).quests@[j]
                    &&& final(self).pets@ == old(self).pets@.update(
                        pi,
                        PetState { on_quest: Some(q1), ..old(self).pets@[pi] },
                    )
                    &&& final(self).config == old(self).config
                    &&& final(self).pet_counter == old(self).pet_counter
                    &&& final(self).battle_counter == old(self).battle_counter
                    &&& final(self).quest_history@ == old(self).quest_history@
                    &&& final(self).battles@ == old(self).battles@
                    &&& final(self).pet_battles@ == old(self).pet_battles@
                },
            },
    {
        if !crate::pet_ops::strings_equal(owner, caller) {
            return Err(Error::Unauthorized);
        }
        if !self.check_pet_availability(pet_id) {
            return Err(Error::InvalidState);
        }
        if !self.check_quest_availability(caller, quest_type, now) {
            return Err(Error::InvalidState);
        }

        let ai = match self.find_addr_quests(caller) {
            Some(ai) => ai,
            None => {
                proof {
                    assert(false);
                }
                return Err(Error::InvalidState);
            },
        };
        let qi = match find_quest_pos(&self.quests[ai].quests, quest_type) {
            Some(qi) => qi,
            None => {
                proof {
                    assert(false);
                }
                return Err(Error::InvalidState);
            },
        };
        let q0 = self.quests[ai].quests[qi].clone();
        let q1 = Quest {
            pet_id: Some(pet_id.clone()),
            quest_type: q0.quest_type,
            awaiting_claiming: true,
            finished_exploring: Some(now + QUEST_EXPLORE_TIME_SECONDS),
            finished_cooldown: Some(now + QUEST_COOLDOWN_SECONDS),
            base_loot: q0.base_loot,
            difficulty: q0.difficulty,
            difficulty_increment: q0.difficulty_increment,
        };

        let mut list = self.quests[ai].quests.clone();
        proof {
            assert(list@ =~= self.quests@[ai as int].quests@);
        }
        list.set(qi, q1.clone());
        let address = self.quests[ai].address.clone();
        self.quests.set(ai, AddressQuests { address, quests: list });

        let pi = match self.find_pet(pet_id) {
            Some(pi) => pi,
            None => {
                proof {
                    assert(false);
                }
                return Err(Error::InvalidState);
            },
        };
        let mut pet = self.pets[pi].clone();
        pet.on_quest = Some(q1);
        self.pets.set(pi, pet);

        proof {
            let ghost ai_ = ai as int;
            let ghost qi_ = qi as int;
            assert(self.quests@[ai_].quests@ =~= old(self).quests@[ai_].quests@.update(
                qi_,
                Self::spec_started_quest(old(self).quests@[ai_].quests@[qi_], *pet_id, now),
            ));
            lemma_pet_ids_pointwise(old(self).pets@, self.pets@, self.pet_counter);
            assert forall|k: int| 0 <= k < self.pets@.len() implies (
            #[trigger] self.pets@[k]).current.le(self.pets@[k].max) by {
                if k != pi as int {
                    assert(self.pets@[k] == old(self).pets@[k]);
                }
            }
            assert forall|j: int, k: int| 0 <= j < k < self.quests@.len() implies (
            #[trigger] self.quests@[j].address@) != (#[trigger] self.quests@[k].address@) by {
                assert(self.quests@[j].address@ == old(self).quests@[j].address@);
                assert(self.quests@[k].address@ == old(self).quests@[k].address@);
            }
            assert forall|j: int| 0 <= j < self.quests@.len() implies crate::store::quest_list_wf(
                (#[trigger] self.quests@[j]).quests@,
            ) by {
                if j != ai_ {
                    assert(self.quests@[j] == old(self).quests@[j]);
                } else {
                    let l0 = old(self).quests@[ai_].quests@;
                    let l1 = self.quests@[ai_].quests@;
                    assert forall|a: int, b: int| 0 <= a < b < l1.len() implies (
                    #[trigger] l1[a].quest_type) != (#[trigger] l1[b].quest_type) by {
                        assert(l1[a].quest_type == l0[a].quest_type);
                        assert(l1[b].quest_type == l0[b].quest_type);
                    }
                }
            }
        }
        Ok(())
    }
}

/// One history entry as recorded at claim time: the claiming pet, the
/// quest's label, the exploration window, the loot paid and the outcome's
/// label.
pub open spec fn spec_history_entry_ok(
    e: QuestHistory,
    q0: Quest,
    pid: String,
    outcome: QuestOutcome,
    amount: u32,
) -> bool {
    &&& e.pet_id == pid
    &&& e.quest_type@ == quest_type_label(q0.quest_type)
    &&& e.time_started == q0.finished_exploring->0 - QUEST_EXPLORE_TIME_SECONDS
    &&& e.time_ended == q0.finished_exploring->0
    &&& e.loot_collected == amount
    &&& e.outcome@ == outcome_label(outcome)
}

/// `newh` is `oldh` with `e` appended to the history of `addr`, the entry
/// being created first if the address had none; nothing else changes.
pub open spec fn spec_history_insert(
    oldh: Seq<AddressHistory>,
    newh: Seq<AddressHistory>,
    addr: Seq<char>,
    e: QuestHistory,
) -> bool {
    if has_history(oldh, addr) {
        let hi = history_index(oldh, addr);
        &&& newh.len() == oldh.len()
        &&& forall|j: int| 0 <= j < oldh.len() && j != hi ==> newh[j] == oldh[j]
        &&& newh[hi].address == oldh[hi].address
        &&& newh[hi].entries@ == oldh[hi].entries@.push(e)
    } else {
        &&& newh.len() == oldh.len() + 1
        &&& forall|j: int| 0 <= j < oldh.len() ==> newh[j] == oldh[j]
        &&& newh.last().address@ == addr
        &&& newh.last().entries@ == seq![e]
    }
}

/// The entry a claim appended for `addr`.
pub open spec fn spec_inserted_history_entry(
    oldh: Seq<AddressHistory>,
    newh: Seq<AddressHistory>,
    addr: Seq<char>,
) -> QuestHistory {
    if has_history(oldh, addr) {
        newh[history_index(oldh, addr)].entries@.last()
    } else {
        newh.last().entries@[0]
    }
}

/// The quest slot after a claim re-rolled it: idle again with fresh
/// sampled fields, the cooldown clock kept, and the difficulty ramp
/// raised according to the outcome — by nothing on a fail, by at most one
/// on a pass, and by one or two on an exceptional pass. The ramp never
/// decreases.
pub open spec fn spec_rerolled_quest(q1: Quest, q0: Quest, outcome: QuestOutcome) -> bool {
    &&& q1.quest_type == q0.quest_type
    &&& q1.pet_id is None
    &&& q1.finished_exploring is None
    &&& !q1.awaiting_claiming
    &&& q1.finished_cooldown == q0.finished_cooldown
    &&& q1.rolled_wf()
    &&& match outcome {
        QuestOutcome::Fail => q1.difficulty_increment == q0.difficulty_increment,
        QuestOutcome::Pass => q0.difficulty_increment <= q1.difficulty_increment
            <= q0.difficulty_increment + 1,
        QuestOutcome::ExceptionalPass => q0.difficulty_increment + 1 <= q1.difficulty_increment
            <= q0.difficulty_increment + 2,
    }
}

/// A claim never lowers the difficulty ramp: whatever the outcome, the
/// re-rolled quest's `difficulty_increment` is at least the old one. Any
/// sequence of claims therefore leaves it non-decreasing.
pub proof fn lemma_ramp_monotone(q1: Quest, q0: Quest, outcome: QuestOutcome)
    requires
        spec_rerolled_quest(q1, q0, outcome),
    ensures
        q1.difficulty_increment >= q0.difficulty_increment,
{
}

/// Straight after a claim the re-rolled quest is never `Claimable`: at
/// any query time its derived status is `Available` or `OnCooldown`.
pub proof fn lemma_rerolled_never_claimable(q1: Quest, q0: Quest, outcome: QuestOutcome, at: u64)
    requires
        spec_rerolled_quest(q1, q0, outcome),
    ensures
        spec_quest_status(q1, at) != QuestStatus::Claimable,
        spec_quest_status(q1, at) == QuestStatus::Available || spec_quest_status(q1, at)
            == QuestStatus::OnCooldown,
{
    crate::quest::lemma_not_claimable_after_claim(q1, at);
}

impl Store {
    /// Appends `new_entry` to the history of `address`, creating the
    /// per-address log on first use.
    fn insert_quest_history(&mut self, address: &String, new_entry: QuestHistory)
        requires
            crate::store::history_addrs_distinct(old(self).quest_history@),
        ensures
            crate::store::history_addrs_distinct(final(self).quest_history@),
            spec_history_insert(
                old(self).quest_history@,
                final(self).quest_history@,
                address@,
                new_entry,
            ),
            final(self).config == old(self).config,
            final(self).pet_counter == old(self).pet_counter,
            final(self).battle_counter == old(self).battle_counter,
            final(self).pets@ == old(self).pets@,
            final(self).quests@ == old(self).quests@,
            final(self).battles@ == old(self).battles@,
            final(self).pet_battles@ == old(self).pet_battles@,
    {
        match self.find_history(address) {
            Some(hi) => {
                let mut entries = self.quest_history[hi].entries.clone();
                proof {
                    assert(entries@ =~= self.quest_history@[hi as int].entries@);
                }
                entries.push(new_entry);
                let address_key = self.quest_history[hi].address.clone();
                self.quest_history.set(hi, AddressHistory { address: address_key, entries });
                proof {
                    assert forall|j: int, k: int| 0 <= j < k < self.quest_history@.len() implies (
                    #[trigger] self.quest_history@[j].address@) != (
                    #[trigger] self.quest_history@[k].address@) by {
                        assert(self.quest_history@[j].address@ == old(
                            self,
                        ).quest_history@[j].address@);
                        assert(self.quest_history@[k].address@ == old(
                            self,
                        ).quest_history@[k].address@);
                    }
                }
            },
            None => {
                let mut entries: Vec<QuestHistory> = Vec::new();
                entries.push(new_entry);
                proof {
                    assert(entries@ =~= seq![new_entry]);
                }
                self.quest_history.push(AddressHistory { address: address.clone(), entries });
                proof {
                    assert forall|j: int, k: int| 0 <= j < k < self.quest_history@.len() implies (
                    #[trigger] self.quest_history@[j].address@) != (
                    #[trigger] self.quest_history@[k].address@) by {
                        if k == self.quest_history@.len() - 1 {
                            assert(!has_history(old(self).quest_history@, address@));
                            assert(old(self).quest_history@[j].address@ != address@);
                        }
                    }
                }
            },
        }
    }

    /// Which error, if any, a claim request is rejected with.
    pub open spec fn spec_claim_guard(self, caller: Seq<char>, t: QuestType, now: u64) -> Result<
        (),
        Error,
    > {
        if !self.spec_awaiting_claim(caller, t, now) {
            Err(Error::InvalidState)
        } else if self.spec_quest_of(caller, t).pet_id is None {
            Err(Error::InvalidState)
        } else if !has_pet(self.pets@, self.spec_quest_of(caller, t).pet_id->0@) {
            Err(Error::NotFound)
        } else {
            Ok(())
        }
    }

    /// The difficulty ramp of the claimed quest still has headroom for
    /// the largest possible raise.
    pub open spec fn spec_claim_increment_ok(self, caller: Seq<char>, t: QuestType) -> bool {
        self.spec_has_quest(caller, t) ==> self.spec_quest_of(caller, t).difficulty_increment
            <= u16::MAX - 2
    }

    /// Claims a quest's rewards: computes the outcome from the assigned
    /// pet's stats and the stored quest fields, appends a history entry,
    /// frees the pet, re-rolls the quest with a ramped difficulty, and
    /// returns the loot mint instruction. Fails with `InvalidState` when
    /// the quest is not awaiting a claim or has no pet attached, and with
    /// `NotFound` when the attached pet's record is gone; each failure
    /// leaves the store unchanged.
    pub fn claim_quest_rewards(&mut self, caller: &String, quest_type: QuestType, now: u64) -> (r:
        Result<TokenInstruction, Error>)
        requires
            old(self).wf(),
            old(self).spec_claim_increment_ok(caller@, quest_type),
        ensures
            final(self).wf(),
            match old(self).spec_claim_guard(caller@, quest_type, now) {
                Err(e) => r == Err::<TokenInstruction, Error>(e) && *final(self) == *old(self),
                Ok(()) => {
                    let ai = addr_index(old(self).quests@, caller@);
                    let list = old(self).quests@[ai].quests@;
                    let qi = quest_pos(list, quest_type);
                    let q0 = list[qi];
                    let pid = q0.pet_id->0;
                    let pi = pet_index(old(self).pets@, pid@);
                    let pet0 = old(self).pets@[pi];
                    let outcome = spec_outcome(pet0.current, q0);
                    let amount = loot_for_outcome(spec_loot(q0), outcome);
                    &&& r == Ok::<TokenInstruction, Error>(
                        TokenInstruction::Mint { recipient: *caller, amount: amount as u64 },
                    )
                    &&& spec_history_insert(
                        old(self).quest_history@,
                        final(self).quest_history@,
                        caller@,
                        spec_inserted_history_entry(
                            old(self).quest_history@,
                            final(self).quest_history@,
                            caller@,
                        ),
                    )
                    &&& spec_history_entry_ok(
                        spec_inserted_history_entry(
                            old(self).quest_history@,
                            final(self).quest_history@,
                            caller@,
                        ),
                        q0,
                        pid,
                        outcome,
                        amount,
                    )
                    &&& final(self).pets@ == old(self).pets@.update(
                        pi,
                        PetState { on_quest: None, ..pet0 },
                    )
                    &&& final(self).quests@.len() == old(self).quests@.len()
                    &&& final(self).quests@[ai].address == old(self).quests@[ai].address
                    &&& final(self).quests@[ai].quests@.len() == list.len()
                    &&& forall|k: int|
                        0 <= k < list.len() && k != qi ==> final(self).quests@[ai].quests@[k]
                            == list[k]
                    &&& spec_rerolled_quest(final(self).quests@[ai].quests@[qi], q0, outcome)
                    &&& forall|j: int|
                        0 <= j < old(self).quests@.len() && j != ai ==> final(self).quests@[j]
                            == old(self).quests@[j]
                    &&& final(self).config == old(self).config
                    &&& final(self).pet_counter == old(self).pet_counter
                    &&& final(self).battle_counter == old(self).battle_counter
                    &&& final(self).battles@ == old(self).battles@
                    &&& final(self).pet_battles@ == old(self).pet_battles@
                },
            },
    {
        if !self.check_quest_awaiting_claim(caller, quest_type, now) {
            return Err(Error::InvalidState);
        }
        let ai = match self.find_addr_quests(caller) {
            Some(ai) => ai,
            None => {
                proof {
                    assert(false);
                }
                return Err(Error::InvalidState);
            },
        };
        let qi = match find_quest_pos(&self.quests[ai].quests, quest_type) {
            Some(qi) => qi,
            None => {
                proof {
                    assert(false);
                }
                return Err(Error::InvalidState);
            },
        };
        let q0 = self.quests[ai].quests[qi].clone();
        let pid = match &q0.pet_id {
            Some(p) => p.clone(),
            None => {
                return Err(Error::InvalidState);
            },
        };
        let pi = match self.find_pet(&pid) {
            Some(pi) => pi,
            None => {
                return Err(Error::NotFound);
            },
        };

        let outcome = calculate_outcome(&self.pets[pi].current, &q0);
        let loot = calculate_loot(&q0);
        let loot_collected = match outcome {
            QuestOutcome::Fail => loot.fail,
            QuestOutcome::Pass => loot.pass,
            QuestOutcome::ExceptionalPass => loot.exceptional_pass,
        };

        let finished_exploring = match q0.finished_exploring {
            Some(t) => t,
            None => {
                proof {
                    assert(false);
                }
                return Err(Error::InvalidState);
            },
        };
        let entry = QuestHistory {
            pet_id: pid.clone(),
            quest_type: quest_type.to_string(),
            time_started: finished_exploring - QUEST_EXPLORE_TIME_SECONDS,
            time_ended: finished_exploring,
            loot_collected,
            outcome: outcome.to_string(),
        };
        proof {
            assert(entry.pet_id == pid);
        }
        self.insert_quest_history(caller, entry);

        let mut pet = self.pets[pi].clone();
        pet.on_quest = None;
        self.pets.set(pi, pet);

        let seed = generate_seed(caller.as_str(), now, self.config.entropy.as_str());
        let mut rng = rng_from_seed(seed);
        let base_loot = gen_range_u16(&mut rng, 1, 5);
        let difficulty = gen_range_u16(&mut rng, 1, 3);
        let delta: u16 = match outcome {
            QuestOutcome::Fail => 0,
            QuestOutcome::Pass => gen_range_u16(&mut rng, 0, 1),
            QuestOutcome::ExceptionalPass => gen_range_u16(&mut rng, 1, 2),
        };
        let q1 = Quest {
            pet_id: None,
            quest_type: q0.quest_type,
            awaiting_claiming: false,
            finished_exploring: None,
            finished_cooldown: q0.finished_cooldown,
            base_loot,
            difficulty,
            difficulty_increment: q0.difficulty_increment + delta,
        };
        let mut list = self.quests[ai].quests.clone();
        proof {
            assert(list@ =~= self.quests@[ai as int].quests@);
        }
        list.set(qi, q1);
        let address = self.quests[ai].address.clone();
        self.quests.set(ai, AddressQuests { address, quests: list });

        proof {
            let ghost ai_ = ai as int;
            let ghost qi_ = qi as int;
            lemma_pet_ids_pointwise(old(self).pets@, self.pets@, self.pet_counter);
            assert forall|k: int| 0 <= k < self.pets@.len() implies (
            #[trigger] self.pets@[k]).current.le(self.pets@[k].max) by {
                if k != pi as int {
                    assert(self.pets@[k] == old(self).pets@[k]);
                }
            }
            assert forall|j: int, k: int| 0 <= j < k < self.quests@.len() implies (
            #[trigger] self.quests@[j].address@) != (#[trigger] self.quests@[k].address@) by {
                assert(self.quests@[j].address@ == old(self).quests@[j].address@);
                assert(self.quests@[k].address@ == old(self).quests@[k].address@);
            }
            assert forall|j: int| 0 <= j < self.quests@.len() implies crate::store::quest_list_wf(
                (#[trigger] self.quests@[j]).quests@,
            ) by {
                if j != ai_ {
                    assert(self.quests@[j] == old(self).quests@[j]);
                } else {
                    let l0 = old(self).quests@[ai_].quests@;
                    let l1 = self.quests@[ai_].quests@;
                    assert forall|a: int, b: int| 0 <= a < b < l1.len() implies (
                    #[trigger] l1[a].quest_type) != (#[trigger] l1[b].quest_type) by {
                        assert(l1[a].quest_type == l0[a].quest_type);
                        assert(l1[b].quest_type == l0[b].quest_type);
                    }
                }
            }
        }

        Ok(mint_loot(caller.clone(), loot_collected as u64))
    }

    /// One quest slot's summary at time `now`: the derived status, the
    /// outcome a claim would yield if one is due, and the loot table.
    pub open spec fn spec_quest_summary(self, q: Quest, now: u64) -> QuestSummary {
        QuestSummary {
            status: spec_quest_status(q, now),
            quest_type: q.quest_type,
            finished_exploring: q.finished_exploring,
            finished_cooldown: q.finished_cooldown,
            outcome: if spec_quest_status(q, now) == QuestStatus::Claimable {
                Some(spec_outcome(self.pets@[pet_index(self.pets@, q.pet_id->0@)].current, q))
            } else {
                None
            },
            loot: spec_loot(q),
        }
    }

    /// The quest query succeeds: the address has quests, and every
    /// claimable one still has its pet's record in the store.
    pub open spec fn spec_my_quests_ok(self, addr: Seq<char>, now: u64) -> bool {
        &&& has_addr(self.quests@, addr)
        &&& forall|i: int|
            0 <= i < self.quests@[addr_index(self.quests@, addr)].quests@.len()
                && spec_quest_status(
                #[trigger] self.quests@[addr_index(self.quests@, addr)].quests@[i],
                now,
            ) == QuestStatus::Claimable ==> has_pet(
                self.pets@,
                self.quests@[addr_index(self.quests@, addr)].quests@[i].pet_id->0@,
            )
    }

    /// Summarizes the caller's quests, one summary per slot in stored
    /// order. Fails with `NotFound` when the address has no quests, or
    /// when a claimable quest's pet record is gone.
    pub fn my_quests(&self, address: &String, now: u64) -> (r: Result<Vec<QuestSummary>, Error>)
        requires
            self.wf(),
        ensures
            self.spec_my_quests_ok(address@, now) ==> (r matches Ok(v) && {
                let list = self.quests@[addr_index(self.quests@, address@)].quests@;
                &&& v@.len() == list.len()
                &&& forall|i: int|
                    0 <= i < list.len() ==> v@[i] == self.spec_quest_summary(list[i], now)
            }),
            !self.spec_my_quests_ok(address@, now) ==> r == Err::<Vec<QuestSummary>, Error>(
                Error::NotFound,
            ),
    {
        let ai = match self.find_addr_quests(address) {
            Some(ai) => ai,
            None => {
                return Err(Error::NotFound);
            },
        };
        let list = &self.quests[ai].quests;
        let n = list.len();
        let mut summaries: Vec<QuestSummary> = Vec::new();
        let mut i: usize = 0;
        while i < n
            invariant
                self.wf(),
                ai < self.quests@.len(),
                ai == addr_index(self.quests@, address@),
                list == &self.quests[ai as int].quests,
                n == list@.len(),
                i <= n,
                summaries@.len() == i,
                forall|j: int|
                    0 <= j < i ==> summaries@[j] == self.spec_quest_summary(list@[j], now),
                forall|j: int|
                    0 <= j < i && spec_quest_status(#[trigger] list@[j], now)
                        == QuestStatus::Claimable ==> has_pet(self.pets@, list@[j].pet_id->0@),
            decreases n - i,
        {
            let quest = &list[i];
            let status = quest_status(quest, now);
            let outcome: Option<QuestOutcome> = if matches!(status, QuestStatus::Claimable) {
                let pid = match &quest.pet_id {
                    Some(p) => p,
                    None => {
                        proof {
                            assert(false);
                        }
                        return Err(Error::NotFound);
                    },
                };
                match self.find_pet(pid) {
                    Some(pi) => Some(calculate_outcome(&self.pets[pi].current, quest)),
                    None => {
                        return Err(Error::NotFound);
                    },
                }
            } else {
                None
            };
            let summary = QuestSummary {
                status,
                quest_type: quest.quest_type,
                finished_exploring: quest.finished_exploring,
                finished_cooldown: quest.finished_cooldown,
                outcome,
                loot: calculate_loot(quest),
            };
            summaries.push(summary);
            i += 1;
        }
        Ok(summaries)
    }
}

} // verus!
