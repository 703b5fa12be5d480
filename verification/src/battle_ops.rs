//! Battle requests: proposing, accepting, declining, cancelling and
//! claiming wagered battles, with the reverse index from pets to battles.

use vstd::prelude::*;
use vstd::pervasive::VecAdditionalExecFns;

use crate::battle::{
    battle_pets, spec_battle_outcome, BattleInfo, BattleInfoWithoutInitiator, BattleStatus,
};
use crate::economy::{burn_loot, mint_loot, TokenInstruction};
use crate::error::Error;
use crate::pet_ops::strings_equal;
use crate::store::{
    battle_index, has_battle, has_pet, has_pet_entry, lemma_battle_index_of,
    lemma_pet_entry_index_of, pet_entry_index, pet_index, PetBattleIds, Store,
};

verus! {

/// `ids` with every occurrence of `battle_id` removed, order kept.
pub open spec fn remove_id(ids: Seq<u64>, battle_id: u64) -> Seq<u64>
    decreases ids.len(),
{
    if ids.len() == 0 {
        Seq::empty()
    } else {
        let rest = remove_id(ids.drop_last(), battle_id);
        if ids.last() == battle_id {
            rest
        } else {
            rest.push(ids.last())
        }
    }
}

/// Removing an id really removes it.
pub proof fn lemma_remove_id_gone(ids: Seq<u64>, battle_id: u64)
    ensures
        !remove_id(ids, battle_id).contains(battle_id),
    decreases ids.len(),
{
    if ids.len() > 0 {
        lemma_remove_id_gone(ids.drop_last(), battle_id);
        let rest = remove_id(ids.drop_last(), battle_id);
        if ids.last() != battle_id {
            assert forall|i: int|
                0 <= i < rest.push(ids.last()).len() implies #[trigger] rest.push(ids.last())[i]
                != battle_id by {
                if i < rest.len() {
                    assert(rest.push(ids.last())[i] == rest[i]);
                    assert(!rest.contains(battle_id));
                }
            }
        }
    }
}

/// `newpb` is `oldpb` with `battle_id` appended to the reverse index of
/// pet `pet`, the entry being created first if the pet had none; nothing
/// else changes.
pub open spec fn spec_battle_index_insert(
    oldpb: Seq<PetBattleIds>,
    newpb: Seq<PetBattleIds>,
    pet: Seq<char>,
    battle_id: u64,
) -> bool {
    if has_pet_entry(oldpb, pet) {
        let i = pet_entry_index(oldpb, pet);
        &&& newpb.len() == oldpb.len()
        &&& forall|j: int| 0 <= j < oldpb.len() && j != i ==> newpb[j] == oldpb[j]
        &&& newpb[i].pet_id == oldpb[i].pet_id
        &&& newpb[i].battle_ids@ == oldpb[i].battle_ids@.push(battle_id)
    } else {
        &&& newpb.len() == oldpb.len() + 1
        &&& forall|j: int| 0 <= j < oldpb.len() ==> newpb[j] == oldpb[j]
        &&& newpb.last().pet_id@ == pet
        &&& newpb.last().battle_ids@ == seq![battle_id]
    }
}

/// `newpb` is `oldpb` with every occurrence of `battle_id` removed from
/// the reverse index of pet `pet`; a pet with no entry gets an empty one,
/// and nothing else changes.
pub open spec fn spec_battle_index_remove(
    oldpb: Seq<PetBattleIds>,
    newpb: Seq<PetBattleIds>,
    pet: Seq<char>,
    battle_id: u64,
) -> bool {
    if has_pet_entry(oldpb, pet) {
        let i = pet_entry_index(oldpb, pet);
        &&& newpb.len() == oldpb.len()
        &&& forall|j: int| 0 <= j < oldpb.len() && j != i ==> newpb[j] == oldpb[j]
        &&& newpb[i].pet_id == oldpb[i].pet_id
        &&& newpb[i].battle_ids@ == remove_id(oldpb[i].battle_ids@, battle_id)
    } else {
        &&& newpb.len() == oldpb.len() + 1
        &&& forall|j: int| 0 <= j < oldpb.len() ==> newpb[j] == oldpb[j]
        &&& newpb.last().pet_id@ == pet
        &&& newpb.last().battle_ids@ == Seq::<u64>::empty()
    }
}

/// Builds `ids` with every occurrence of `battle_id` removed.
fn filtered_ids(ids: &Vec<u64>, battle_id: u64) -> (r: Vec<u64>)
    ensures
        r@ == remove_id(ids@, battle_id),
{
    let n = ids.len();
    let mut out: Vec<u64> = Vec::new();
    let mut i: usize = 0;
    while i < n
        invariant
            i <= n,
            n == ids@.len(),
            out@ == remove_id(ids@.take(i as int), battle_id),
        decreases n - i,
    {
        proof {
            assert(ids@.take(i + 1).drop_last() =~= ids@.take(i as int));
            assert(ids@.take(i + 1).last() == ids@[i as int]);
        }
        if ids[i] != battle_id {
            out.push(ids[i]);
        }
        i += 1;
    }
    proof {
        assert(ids@.take(n as int) =~= ids@);
    }
    out
}

impl Store {
    /// Indexes `battle_id` under `pet_id`, creating the entry on first
    /// use.
    fn insert_battle_for_pet(&mut self, pet_id: &String, battle_id: u64)
        requires
            crate::store::pet_entries_distinct(old(self).pet_battles@),
        ensures
            crate::store::pet_entries_distinct(final(self).pet_battles@),
            spec_battle_index_insert(
                old(self).pet_battles@,
                final(self).pet_battles@,
                pet_id@,
                battle_id,
            ),
            final(self).config == old(self).config,
            final(self).pet_counter == old(self).pet_counter,
            final(self).battle_counter == old(self).battle_counter,
            final(self).pets@ == old(self).pets@,
            final(self).quests@ == old(self).quests@,
            final(self).quest_history@ == old(self).quest_history@,
            final(self).battles@ == old(self).battles@,
    {
        match self.find_pet_entry(pet_id) {
            Some(i) => {
                let mut battles = self.pet_battles[i].battle_ids.clone();
                proof {
                    assert(battles@ =~= self.pet_battles@[i as int].battle_ids@);
                }
                battles.push(battle_id);
                let key = self.pet_battles[i].pet_id.clone();
                self.pet_battles.set(i, PetBattleIds { pet_id: key, battle_ids: battles });
                proof {
                    assert forall|j: int, k: int| 0 <= j < k < self.pet_battles@.len() implies (
                    #[trigger] self.pet_battles@[j].pet_id@) != (
                    #[trigger] self.pet_battles@[k].pet_id@) by {
                        assert(self.pet_battles@[j].pet_id@ == old(self).pet_battles@[j].pet_id@);
                        assert(self.pet_battles@[k].pet_id@ == old(self).pet_battles@[k].pet_id@);
                    }
                }
            },
            None => {
                let mut battles: Vec<u64> = Vec::new();
                battles.push(battle_id);
                proof {
                    assert(battles@ =~= seq![battle_id]);
                }
                self.pet_battles.push(PetBattleIds { pet_id: pet_id.clone(), battle_ids: battles });
                proof {
                    assert forall|j: int, k: int| 0 <= j < k < self.pet_battles@.len() implies (
                    #[trigger] self.pet_battles@[j].pet_id@) != (
                    #[trigger] self.pet_battles@[k].pet_id@) by {
                        if k == self.pet_battles@.len() - 1 {
                            assert(!has_pet_entry(old(self).pet_battles@, pet_id@));
                            assert(old(self).pet_battles@[j].pet_id@ != pet_id@);
                        }
                    }
                }
            },
        }
    }

    /// Removes `battle_id` from the reverse index of `pet_id`; a pet with
    /// no entry gets an empty one.
    fn remove_battle_for_pet(&mut self, pet_id: &String, battle_id: u64)
        requires
            crate::store::pet_entries_distinct(old(self).pet_battles@),
        ensures
            crate::store::pet_entries_distinct(final(self).pet_battles@),
            spec_battle_index_remove(
                old(self).pet_battles@,
                final(self).pet_battles@,
                pet_id@,
                battle_id,
            ),
            final(self).config == old(self).config,
            final(self).pet_counter == old(self).pet_counter,
            final(self).battle_counter == old(self).battle_counter,
            final(self).pets@ == old(self).pets@,
            final(self).quests@ == old(self).quests@,
            final(self).quest_history@ == old(self).quest_history@,
            final(self).battles@ == old(self).battles@,
    {
        match self.find_pet_entry(pet_id) {
            Some(i) => {
                let battles = filtered_ids(&self.pet_battles[i].battle_ids, battle_id);
                let key = self.pet_battles[i].pet_id.clone();
                self.pet_battles.set(i, PetBattleIds { pet_id: key, battle_ids: battles });
                proof {
                    assert forall|j: int, k: int| 0 <= j < k < self.pet_battles@.len() implies (
                    #[trigger] self.pet_battles@[j].pet_id@) != (
                    #[trigger] self.pet_battles@[k].pet_id@) by {
                        assert(self.pet_battles@[j].pet_id@ == old(self).pet_battles@[j].pet_id@);
                        assert(self.pet_battles@[k].pet_id@ == old(self).pet_battles@[k].pet_id@);
                    }
                }
            },
            None => {
                let battles: Vec<u64> = Vec::new();
                self.pet_battles.push(PetBattleIds { pet_id: pet_id.clone(), battle_ids: battles });
                proof {
                    assert forall|j: int, k: int| 0 <= j < k < self.pet_battles@.len() implies (
                    #[trigger] self.pet_battles@[j].pet_id@) != (
                    #[trigger] self.pet_battles@[k].pet_id@) by {
                        if k == self.pet_battles@.len() - 1 {
                            assert(!has_pet_entry(old(self).pet_battles@, pet_id@));
                            assert(old(self).pet_battles@[j].pet_id@ != pet_id@);
                        }
                    }
                }
            },
        }
    }

    /// Which error, if any, a battle proposal is rejected with.
    pub open spec fn spec_propose_guard(
        self,
        caller: Seq<char>,
        owner: Seq<char>,
        balance: u64,
        wager: u64,
    ) -> Result<(), Error> {
        if owner != caller {
            Err(Error::Unauthorized)
        } else if balance < wager {
            Err(Error::InsufficientFunds)
        } else {
            Ok(())
        }
    }

    /// Proposes a battle: burns the wager from the caller up front
    /// (escrow by burn), allocates the next battle id, stores the record
    /// as `Pending`, and indexes it under both pets. Returns the new
    /// battle id and the burn instruction. Fails with `Unauthorized`
    /// unless the registry-reported `owner` of the initiating pet is the
    /// caller, and with `InsufficientFunds` when `balance` is below the
    /// wager; each failure leaves the store unchanged.
    pub fn battle_pet(
        &mut self,
        caller: &String,
        owner: &String,
        balance: u64,
        pet_id: &String,
        other_pet_id: &String,
        wager: u64,
    ) -> (r: Result<(u64, TokenInstruction), Error>)
        requires
            old(self).wf(),
            old(self).battle_counter < u64::MAX,
            wager <= u64::MAX / 2,
        ensures
            final(self).wf(),
            match old(self).spec_propose_guard(caller@, owner@, balance, wager) {
                Err(e) => r == Err::<(u64, TokenInstruction), Error>(e) && *final(self) == *old(
                    self,
                ),
                Ok(()) => {
                    let id = old(self).battle_counter;
                    &&& r == Ok::<(u64, TokenInstruction), Error>(
                        (id, TokenInstruction::Burn { owner: *caller, amount: wager }),
                    )
                    &&& final(self).battle_counter == id + 1
                    &&& final(self).battles@ == old(self).battles@.push(
                        BattleInfo {
                            id,
                            initiator_address: *caller,
                            pet_id: *pet_id,
                            other_pet_id: *other_pet_id,
                            wager,
                            status: BattleStatus::Pending,
                            outcome: None,
                        },
                    )
                    &&& exists|mid: Seq<PetBattleIds>|
                        #[trigger] spec_battle_index_insert(
                            old(self).pet_battles@,
                            mid,
                            pet_id@,
                            id,
                        ) && spec_battle_index_insert(mid, final(self).pet_battles@, other_pet_id@, id)
                    &&& final(self).config == old(self).config
                    &&& final(self).pet_counter == old(self).pet_counter
                    &&& final(self).pets@ == old(self).pets@
                    &&& final(self).quests@ == old(self).quests@
                    &&& final(self).quest_history@ == old(self).quest_history@
                },
            },
    {
        if !strings_equal(owner, caller) {
            return Err(Error::Unauthorized);
        }
        if balance < wager {
            return Err(Error::InsufficientFunds);
        }

        let next_battle_id = self.battle_counter;
        self.battle_counter = next_battle_id + 1;
        let battle_info = BattleInfo {
            id: next_battle_id,
            initiator_address: caller.clone(),
            pet_id: pet_id.clone(),
            other_pet_id: other_pet_id.clone(),
            wager,
            status: BattleStatus::Pending,
            outcome: None,
        };
        proof {
            assert(battle_info.initiator_address == *caller);
            assert(battle_info.pet_id == *pet_id);
            assert(battle_info.other_pet_id == *other_pet_id);
        }
        self.battles.push(battle_info);

        self.insert_battle_for_pet(pet_id, next_battle_id);
        let ghost mid = self.pet_battles@;
        self.insert_battle_for_pet(other_pet_id, next_battle_id);

        proof {
            assert(spec_battle_index_insert(
                old(self).pet_battles@,
                mid,
                pet_id@,
                next_battle_id,
            ) && spec_battle_index_insert(mid, self.pet_battles@, other_pet_id@, next_battle_id));
            assert forall|j: int, k: int| 0 <= j < k < self.battles@.len() implies (
            #[trigger] self.battles@[j].id) != (#[trigger] self.battles@[k].id) by {
                if k == self.battles@.len() - 1 {
                    assert(crate::store::battle_wf(old(self).battles@[j], next_battle_id));
                }
            }
            assert forall|j: int| 0 <= j < self.battles@.len() implies crate::store::battle_wf(
                #[trigger] self.battles@[j],
                self.battle_counter,
            ) by {
                if j < self.battles@.len() - 1 {
                    assert(crate::store::battle_wf(old(self).battles@[j], next_battle_id));
                }
            }
        }
        Ok((next_battle_id, burn_loot(caller.clone(), wager)))
    }

    /// Which error, if any, an accept request is rejected with. The
    /// challenged pet of a pending battle must be owned by the caller,
    /// paid for, and both pet records must still exist.
    pub open spec fn spec_accept_guard(
        self,
        caller: Seq<char>,
        owner: Seq<char>,
        balance: u64,
        battle_id: u64,
    ) -> Result<(), Error> {
        if !has_battle(self.battles@, battle_id) {
            Err(Error::NotFound)
        } else {
            let b = self.battles@[battle_index(self.battles@, battle_id)];
            if owner != caller {
                Err(Error::Unauthorized)
            } else if b.status != BattleStatus::Pending {
                Err(Error::InvalidState)
            } else if balance < b.wager {
                Err(Error::InsufficientFunds)
            } else if !has_pet(self.pets@, b.pet_id@) {
                Err(Error::NotFound)
            } else if !has_pet(self.pets@, b.other_pet_id@) {
                Err(Error::NotFound)
            } else {
                Ok(())
            }
        }
    }

    /// Accepts a pending battle: burns the wager from the acceptor,
    /// resolves the contest from both pets' current stats, and updates
    /// the record to `Accepted` with the outcome set. Fails with
    /// `NotFound` for an unknown battle or a missing pet record,
    /// `Unauthorized` unless the registry-reported `owner` of the
    /// challenged pet is the caller, `InvalidState` when the battle is
    /// not pending, and `InsufficientFunds` when `balance` is below the
    /// wager; each failure leaves the store unchanged.
    pub fn accept_battle(
        &mut self,
        caller: &String,
        owner: &String,
        balance: u64,
        battle_id: u64,
    ) -> (r: Result<TokenInstruction, Error>)
        requires
            old(self).wf(),
        ensures
            final(self).wf(),
            match old(self).spec_accept_guard(caller@, owner@, balance, battle_id) {
                Err(e) => r == Err::<TokenInstruction, Error>(e) && *final(self) == *old(self),
                Ok(()) => {
                    let bi = battle_index(old(self).battles@, battle_id);
                    let b = old(self).battles@[bi];
                    let pa = old(self).pets@[pet_index(old(self).pets@, b.pet_id@)];
                    let pb = old(self).pets@[pet_index(old(self).pets@, b.other_pet_id@)];
                    let outcome = spec_battle_outcome(pa.current, pb.current);
                    &&& r == Ok::<TokenInstruction, Error>(
                        TokenInstruction::Burn { owner: *caller, amount: b.wager },
                    )
                    &&& final(self).battles@ == old(self).battles@.update(
                        bi,
                        BattleInfo {
                            status: BattleStatus::Accepted,
                            outcome: Some(outcome),
                            ..b
                        },
                    )
                    &&& final(self).config == old(self).config
                    &&& final(self).pet_counter == old(self).pet_counter
                    &&& final(self).battle_counter == old(self).battle_counter
                    &&& final(self).pets@ == old(self).pets@
                    &&& final(self).quests@ == old(self).quests@
                    &&& final(self).quest_history@ == old(self).quest_history@
                    &&& final(self).pet_battles@ == old(self).pet_battles@
                },
            },
    {
        let bi = match self.find_battle(battle_id) {
            Some(bi) => bi,
            None => {
                return Err(Error::NotFound);
            },
        };
        if !strings_equal(owner, caller) {
            return Err(Error::Unauthorized);
        }
        if !matches!(self.battles[bi].status, BattleStatus::Pending) {
            return Err(Error::InvalidState);
        }
        let wager = self.battles[bi].wager;
        if balance < wager {
            return Err(Error::InsufficientFunds);
        }
        let pa = match self.find_pet(&self.battles[bi].pet_id) {
            Some(i) => i,
            None => {
                return Err(Error::NotFound);
            },
        };
        let pb = match self.find_pet(&self.battles[bi].other_pet_id) {
            Some(i) => i,
            None => {
                return Err(Error::NotFound);
            },
        };

        let outcome = battle_pets(&self.pets[pa].current, &self.pets[pb].current);
        let b0 = self.battles[bi].clone();
        let updated = BattleInfo {
            id: b0.id,
            initiator_address: b0.initiator_address,
            pet_id: b0.pet_id,
            other_pet_id: b0.other_pet_id,
            wager: b0.wager,
            status: BattleStatus::Accepted,
            outcome: Some(outcome),
        };
        self.battles.set(bi, updated);

        proof {
            assert forall|j: int, k: int| 0 <= j < k < self.battles@.len() implies (
            #[trigger] self.battles@[j].id) != (#[trigger] self.battles@[k].id) by {
                assert(self.battles@[j].id == old(self).battles@[j].id);
                assert(self.battles@[k].id == old(self).battles@[k].id);
            }
            assert forall|j: int| 0 <= j < self.battles@.len() implies crate::store::battle_wf(
                #[trigger] self.battles@[j],
                self.battle_counter,
            ) by {
                if j != bi as int {
                    assert(self.battles@[j] == old(self).battles@[j]);
                }
            }
        }
        Ok(burn_loot(caller.clone(), wager))
    }

    /// Which error, if any, a decline or cancel request is rejected
    /// with: the battle must exist and still be pending, and the
    /// registry-reported owner of the checked side's pet must be the
    /// caller.
    pub open spec fn spec_withdraw_guard(
        self,
        caller: Seq<char>,
        owner: Seq<char>,
        battle_id: u64,
    ) -> Result<(), Error> {
        if !has_battle(self.battles@, battle_id) {
            Err(Error::NotFound)
        } else if owner != caller {
            Err(Error::Unauthorized)
        } else if self.battles@[battle_index(self.battles@, battle_id)].status
            != BattleStatus::Pending {
            Err(Error::InvalidState)
        } else {
            Ok(())
        }
    }

    /// The storage effect shared by decline and cancel: the record is
    /// deleted, both reverse-index entries lose the battle id, and the
    /// initiator is refunded exactly the original wager.
    pub open spec fn spec_withdrawn(
        self,
        new: Store,
        battle_id: u64,
        r: Result<TokenInstruction, Error>,
    ) -> bool {
        let bi = battle_index(self.battles@, battle_id);
        let b = self.battles@[bi];
        &&& r == Ok::<TokenInstruction, Error>(
            TokenInstruction::Mint { recipient: b.initiator_address, amount: b.wager },
        )
        &&& new.battles@ == self.battles@.remove(bi)
        &&& exists|mid: Seq<PetBattleIds>|
            #[trigger] spec_battle_index_remove(self.pet_battles@, mid, b.pet_id@, battle_id)
                && spec_battle_index_remove(mid, new.pet_battles@, b.other_pet_id@, battle_id)
        &&& new.config == self.config
        &&& new.pet_counter == self.pet_counter
        &&& new.battle_counter == self.battle_counter
        &&& new.pets@ == self.pets@
        &&& new.quests@ == self.quests@
        &&& new.quest_history@ == self.quest_history@
    }

    /// Deletes the battle at index `bi`, removes it from both pets'
    /// reverse indices, and builds the refund instruction.
    fn withdraw_battle(&mut self, bi: usize) -> (r: TokenInstruction)
        requires
            old(self).wf(),
            bi < old(self).battles@.len(),
        ensures
            final(self).wf(),
            old(self).spec_withdrawn(
                *final(self),
                old(self).battles@[bi as int].id,
                Ok::<TokenInstruction, Error>(r),
            ),
    {
        proof {
            lemma_battle_index_of(self.battles@, self.battles@[bi as int].id, bi as int);
        }
        let battle = self.battles[bi].clone();
        self.battles.remove(bi);
        proof {
            let ghost oldb = old(self).battles@;
            let ghost bi_ = bi as int;
            assert forall|a: int, b: int| 0 <= a < b < self.battles@.len() implies (
            #[trigger] self.battles@[a].id) != (#[trigger] self.battles@[b].id) by {
                let a0 = if a < bi_ { a } else { a + 1 };
                let b0 = if b < bi_ { b } else { b + 1 };
                assert(self.battles@[a] == oldb[a0]);
                assert(self.battles@[b] == oldb[b0]);
            }
            assert forall|k: int| 0 <= k < self.battles@.len() implies crate::store::battle_wf(
                #[trigger] self.battles@[k],
                self.battle_counter,
            ) by {
                let k0 = if k < bi_ { k } else { k + 1 };
                assert(self.battles@[k] == oldb[k0]);
            }
        }
        self.remove_battle_for_pet(&battle.pet_id, battle.id);
        let ghost mid = self.pet_battles@;
        self.remove_battle_for_pet(&battle.other_pet_id, battle.id);
        proof {
            assert(spec_battle_index_remove(
                old(self).pet_battles@,
                mid,
                battle.pet_id@,
                battle.id,
            ) && spec_battle_index_remove(mid, self.pet_battles@, battle.other_pet_id@, battle.id));
        }
        mint_loot(battle.initiator_address, battle.wager)
    }

    /// Declines a pending battle as the challenged side: the record and
    /// both reverse-index entries are deleted, and the initiator — the
    /// only side that has paid — is refunded exactly the original wager.
    /// Fails with `NotFound` for an unknown battle, `Unauthorized`
    /// unless the registry-reported `owner` of the challenged pet is the
    /// caller, and `InvalidState` when the battle is no longer pending;
    /// each failure leaves the store unchanged.
    pub fn decline_battle(&mut self, caller: &String, owner: &String, battle_id: u64) -> (r: Result<
        TokenInstruction,
        Error,
    >)
        requires
            old(self).wf(),
        ensures
            final(self).wf(),
            match old(self).spec_withdraw_guard(caller@, owner@, battle_id) {
                Err(e) => r == Err::<TokenInstruction, Error>(e) && *final(self) == *old(self),
                Ok(()) => old(self).spec_withdrawn(*final(self), battle_id, r),
            },
    {
        let bi = match self.find_battle(battle_id) {
            Some(bi) => bi,
            None => {
                return Err(Error::NotFound);
            },
        };
        if !strings_equal(owner, caller) {
            return Err(Error::Unauthorized);
        }
        if !matches!(self.battles[bi].status, BattleStatus::Pending) {
            return Err(Error::InvalidState);
        }
        Ok(self.withdraw_battle(bi))
    }

    /// Cancels a pending battle as the initiator: the storage effect and
    /// the refund are exactly those of a decline; only the ownership
    /// check differs, `owner` being the registry-reported owner of the
    /// initiator's pet. Fails as `decline_battle` does, each failure
    /// leaving the store unchanged.
    pub fn cancel_battle(&mut self, caller: &String, owner: &String, battle_id: u64) -> (r: Result<
        TokenInstruction,
        Error,
    >)
        requires
            old(self).wf(),
        ensures
            final(self).wf(),
            match old(self).spec_withdraw_guard(caller@, owner@, battle_id) {
                Err(e) => r == Err::<TokenInstruction, Error>(e) && *final(self) == *old(self),
                Ok(()) => old(self).spec_withdrawn(*final(self), battle_id, r),
            },
    {
        let bi = match self.find_battle(battle_id) {
            Some(bi) => bi,
            None => {
                return Err(Error::NotFound);
            },
        };
        if !strings_equal(owner, caller) {
            return Err(Error::Unauthorized);
        }
        if !matches!(self.battles[bi].status, BattleStatus::Pending) {
            return Err(Error::InvalidState);
        }
        Ok(self.withdraw_battle(bi))
    }

    /// Which error, if any, a claim request is rejected with: the battle
    /// must exist and be resolved, and the registry-reported owner of
    /// the claimed pet must be the caller.
    pub open spec fn spec_claim_battle_guard(
        self,
        caller: Seq<char>,
        owner: Seq<char>,
        battle_id: u64,
    ) -> Result<(), Error> {
        if !has_battle(self.battles@, battle_id) {
            Err(Error::NotFound)
        } else if owner != caller {
            Err(Error::Unauthorized)
        } else if self.battles@[battle_index(self.battles@, battle_id)].outcome is None {
            Err(Error::InvalidState)
        } else {
            Ok(())
        }
    }

    /// The claiming side won: its pet is the one the stored outcome
    /// favors.
    pub open spec fn spec_claim_wins(b: BattleInfo, pet_id: Seq<char>) -> bool {
        if b.outcome->0 {
            b.pet_id@ == pet_id
        } else {
            b.other_pet_id@ == pet_id
        }
    }

    /// Claims a resolved battle for one side: the winner is paid exactly
    /// twice the wager and the loser nothing, and the battle leaves the
    /// claiming pet's reverse index either way. The record itself
    /// persists as an audit trail. Fails with `NotFound` for an unknown
    /// battle, `Unauthorized` unless the registry-reported `owner` of
    /// `pet_id` is the caller, and `InvalidState` while the battle is
    /// unresolved; each failure leaves the store unchanged.
    pub fn claim_battle(
        &mut self,
        caller: &String,
        owner: &String,
        battle_id: u64,
        pet_id: &String,
    ) -> (r: Result<Option<TokenInstruction>, Error>)
        requires
            old(self).wf(),
        ensures
            final(self).wf(),
            match old(self).spec_claim_battle_guard(caller@, owner@, battle_id) {
                Err(e) => r == Err::<Option<TokenInstruction>, Error>(e) && *final(self) == *old(
                    self,
                ),
                Ok(()) => {
                    let b = old(self).battles@[battle_index(old(self).battles@, battle_id)];
                    &&& r == Ok::<Option<TokenInstruction>, Error>(
                        if Self::spec_claim_wins(b, pet_id@) {
                            Some(
                                TokenInstruction::Mint {
                                    recipient: *caller,
                                    amount: (2 * b.wager) as u64,
                                },
                            )
                        } else {
                            None
                        },
                    )
                    &&& spec_battle_index_remove(
                        old(self).pet_battles@,
                        final(self).pet_battles@,
                        pet_id@,
                        battle_id,
                    )
                    &&& final(self).config == old(self).config
                    &&& final(self).pet_counter == old(self).pet_counter
                    &&& final(self).battle_counter == old(self).battle_counter
                    &&& final(self).pets@ == old(self).pets@
                    &&& final(self).quests@ == old(self).quests@
                    &&& final(self).quest_history@ == old(self).quest_history@
                    &&& final(self).battles@ == old(self).battles@
                },
            },
    {
        let bi = match self.find_battle(battle_id) {
            Some(bi) => bi,
            None => {
                return Err(Error::NotFound);
            },
        };
        if !strings_equal(owner, caller) {
            return Err(Error::Unauthorized);
        }
        let did_win = match self.battles[bi].outcome {
            Some(true) => strings_equal(&self.battles[bi].pet_id, pet_id),
            Some(false) => strings_equal(&self.battles[bi].other_pet_id, pet_id),
            None => {
                return Err(Error::InvalidState);
            },
        };
        let wager = self.battles[bi].wager;

        let instruction = if did_win {
            Some(mint_loot(caller.clone(), 2 * wager))
        } else {
            None
        };
        self.remove_battle_for_pet(pet_id, battle_id);
        Ok(instruction)
    }

    /// The stored record of a battle, if any.
    pub fn get_battle(&self, battle_id: u64) -> (r: Option<BattleInfo>)
        requires
            self.wf(),
        ensures
            r is Some <==> has_battle(self.battles@, battle_id),
            r is Some ==> r->0 == self.battles@[battle_index(self.battles@, battle_id)],
    {
        match self.find_battle(battle_id) {
            Some(bi) => Some(self.battles[bi].clone()),
            None => None,
        }
    }

    /// The battle ids indexed under a pet; empty when the pet has no
    /// entry.
    pub fn get_pet_battles(&self, pet_id: &String) -> (r: Vec<u64>)
        requires
            self.wf(),
        ensures
            has_pet_entry(self.pet_battles@, pet_id@) ==> r@ == self.pet_battles@[pet_entry_index(
                self.pet_battles@,
                pet_id@,
            )].battle_ids@,
            !has_pet_entry(self.pet_battles@, pet_id@) ==> r@ == Seq::<u64>::empty(),
    {
        match self.find_pet_entry(pet_id) {
            Some(i) => {
                let ids = self.pet_battles[i].battle_ids.clone();
                proof {
                    assert(ids@ =~= self.pet_battles@[i as int].battle_ids@);
                }
                ids
            },
            None => Vec::new(),
        }
    }
}

/// Inserting keeps the reverse index's keys distinct, and the pet's
/// entry now holds the battle id.
pub proof fn lemma_index_insert_contains(
    oldpb: Seq<PetBattleIds>,
    newpb: Seq<PetBattleIds>,
    pet: Seq<char>,
    battle_id: u64,
)
    requires
        crate::store::pet_entries_distinct(oldpb),
        spec_battle_index_insert(oldpb, newpb, pet, battle_id),
    ensures
        crate::store::pet_entries_distinct(newpb),
        has_pet_entry(newpb, pet),
        newpb[pet_entry_index(newpb, pet)].battle_ids@.contains(battle_id),
{
    if has_pet_entry(oldpb, pet) {
        let i = pet_entry_index(oldpb, pet);
        assert forall|a: int, b: int| 0 <= a < b < newpb.len() implies (
        #[trigger] newpb[a].pet_id@) != (#[trigger] newpb[b].pet_id@) by {
            assert(newpb[a].pet_id@ == oldpb[a].pet_id@);
            assert(newpb[b].pet_id@ == oldpb[b].pet_id@);
        }
        assert(newpb[i].pet_id@ == oldpb[i].pet_id@);
        lemma_pet_entry_index_of(newpb, pet, i);
        assert(newpb[i].battle_ids@.last() == battle_id);
    } else {
        assert forall|a: int, b: int| 0 <= a < b < newpb.len() implies (
        #[trigger] newpb[a].pet_id@) != (#[trigger] newpb[b].pet_id@) by {
            if b == newpb.len() - 1 {
                assert(oldpb[a].pet_id@ != pet);
            } else {
                assert(newpb[a].pet_id@ == oldpb[a].pet_id@);
                assert(newpb[b].pet_id@ == oldpb[b].pet_id@);
            }
        }
        let i = newpb.len() - 1;
        lemma_pet_entry_index_of(newpb, pet, i);
        assert(newpb[i].battle_ids@[0] == battle_id);
    }
}

/// Proposing always leaves the new battle indexed under both pets.
pub proof fn lemma_propose_indexes_both(
    prepb: Seq<PetBattleIds>,
    postpb: Seq<PetBattleIds>,
    pet: Seq<char>,
    other_pet: Seq<char>,
    battle_id: u64,
)
    requires
        crate::store::pet_entries_distinct(prepb),
        exists|mid: Seq<PetBattleIds>|
            #[trigger] spec_battle_index_insert(prepb, mid, pet, battle_id)
                && spec_battle_index_insert(mid, postpb, other_pet, battle_id),
    ensures
        has_pet_entry(postpb, pet),
        postpb[pet_entry_index(postpb, pet)].battle_ids@.contains(battle_id),
        has_pet_entry(postpb, other_pet),
        postpb[pet_entry_index(postpb, other_pet)].battle_ids@.contains(battle_id),
{
    let mid = choose|mid: Seq<PetBattleIds>|
        #[trigger] spec_battle_index_insert(prepb, mid, pet, battle_id)
            && spec_battle_index_insert(mid, postpb, other_pet, battle_id);
    lemma_index_insert_contains(prepb, mid, pet, battle_id);
    lemma_index_insert_contains(mid, postpb, other_pet, battle_id);
    if pet == other_pet {
    } else {
        // The second insertion does not touch the first pet's entry.
        let i1 = pet_entry_index(mid, pet);
        if has_pet_entry(mid, other_pet) {
            let i2 = pet_entry_index(mid, other_pet);
            assert(mid[i1].pet_id@ == pet);
            assert(mid[i2].pet_id@ == other_pet);
            assert(i1 != i2);
            assert(postpb[i1] == mid[i1]);
            lemma_pet_entry_index_of(postpb, pet, i1);
        } else {
            assert(postpb[i1] == mid[i1]);
            lemma_pet_entry_index_of(postpb, pet, i1);
        }
    }
}

/// Removing keeps the reverse index's keys distinct.
pub proof fn lemma_index_remove_distinct(
    oldpb: Seq<PetBattleIds>,
    newpb: Seq<PetBattleIds>,
    pet: Seq<char>,
    battle_id: u64,
)
    requires
        crate::store::pet_entries_distinct(oldpb),
        spec_battle_index_remove(oldpb, newpb, pet, battle_id),
    ensures
        crate::store::pet_entries_distinct(newpb),
{
    if has_pet_entry(oldpb, pet) {
        let i = pet_entry_index(oldpb, pet);
        assert forall|a: int, b: int| 0 <= a < b < newpb.len() implies (
        #[trigger] newpb[a].pet_id@) != (#[trigger] newpb[b].pet_id@) by {
            assert(newpb[a].pet_id@ == oldpb[a].pet_id@);
            assert(newpb[b].pet_id@ == oldpb[b].pet_id@);
        }
    } else {
        assert forall|a: int, b: int| 0 <= a < b < newpb.len() implies (
        #[trigger] newpb[a].pet_id@) != (#[trigger] newpb[b].pet_id@) by {
            if b == newpb.len() - 1 {
                assert(oldpb[a].pet_id@ != pet);
            } else {
                assert(newpb[a].pet_id@ == oldpb[a].pet_id@);
                assert(newpb[b].pet_id@ == oldpb[b].pet_id@);
            }
        }
    }
}

/// After a removal the pet's reverse index exists and no longer holds
/// the battle id.
pub proof fn lemma_index_remove_clears(
    oldpb: Seq<PetBattleIds>,
    newpb: Seq<PetBattleIds>,
    pet: Seq<char>,
    battle_id: u64,
)
    requires
        crate::store::pet_entries_distinct(oldpb),
        spec_battle_index_remove(oldpb, newpb, pet, battle_id),
    ensures
        has_pet_entry(newpb, pet),
        !newpb[pet_entry_index(newpb, pet)].battle_ids@.contains(battle_id),
{
    lemma_index_remove_distinct(oldpb, newpb, pet, battle_id);
    if has_pet_entry(oldpb, pet) {
        let i = pet_entry_index(oldpb, pet);
        assert(newpb[i].pet_id@ == oldpb[i].pet_id@);
        assert(newpb[i].pet_id@ == pet);
        lemma_pet_entry_index_of(newpb, pet, i);
        lemma_remove_id_gone(oldpb[i].battle_ids@, battle_id);
    } else {
        let i = newpb.len() - 1;
        lemma_pet_entry_index_of(newpb, pet, i);
    }
}

/// Declining or cancelling always deletes the battle record and clears
/// it from both pets' reverse indices, while refunding exactly the
/// original wager to the initiator.
pub proof fn lemma_withdraw_clears_both(
    pre: Store,
    post: Store,
    battle_id: u64,
    r: Result<TokenInstruction, Error>,
)
    requires
        pre.wf(),
        has_battle(pre.battles@, battle_id),
        pre.spec_withdrawn(post, battle_id, r),
    ensures
        !has_battle(post.battles@, battle_id),
        ({
            let b = pre.battles@[battle_index(pre.battles@, battle_id)];
            &&& r == Ok::<TokenInstruction, Error>(
                TokenInstruction::Mint { recipient: b.initiator_address, amount: b.wager },
            )
            &&& has_pet_entry(post.pet_battles@, b.pet_id@)
            &&& !post.pet_battles@[pet_entry_index(
                post.pet_battles@,
                b.pet_id@,
            )].battle_ids@.contains(battle_id)
            &&& has_pet_entry(post.pet_battles@, b.other_pet_id@)
            &&& !post.pet_battles@[pet_entry_index(
                post.pet_battles@,
                b.other_pet_id@,
            )].battle_ids@.contains(battle_id)
        }),
{
    let bi = battle_index(pre.battles@, battle_id);
    let b = pre.battles@[bi];
    assert forall|k: int| 0 <= k < post.battles@.len() implies (#[trigger] post.battles@[k].id)
        != battle_id by {
        let k0 = if k < bi {
            k
        } else {
            k + 1
        };
        assert(post.battles@[k] == pre.battles@[k0]);
        if k0 < bi {
            assert(pre.battles@[k0].id != pre.battles@[bi].id);
        } else {
            assert(pre.battles@[bi].id != pre.battles@[k0].id);
        }
    }

    let mid = choose|mid: Seq<PetBattleIds>|
        #[trigger] spec_battle_index_remove(pre.pet_battles@, mid, b.pet_id@, battle_id)
            && spec_battle_index_remove(mid, post.pet_battles@, b.other_pet_id@, battle_id);
    lemma_index_remove_distinct(pre.pet_battles@, mid, b.pet_id@, battle_id);
    lemma_index_remove_clears(pre.pet_battles@, mid, b.pet_id@, battle_id);
    lemma_index_remove_clears(mid, post.pet_battles@, b.other_pet_id@, battle_id);
    if b.pet_id@ == b.other_pet_id@ {
    } else {
        // The second removal does not touch the first pet's entry.
        let i1 = pet_entry_index(mid, b.pet_id@);
        if has_pet_entry(mid, b.other_pet_id@) {
            let i2 = pet_entry_index(mid, b.other_pet_id@);
            assert(mid[i1].pet_id@ == b.pet_id@);
            assert(mid[i2].pet_id@ == b.other_pet_id@);
            assert(i1 != i2);
            assert(post.pet_battles@[i1] == mid[i1]);
            lemma_pet_entry_index_of(post.pet_battles@, b.pet_id@, i1);
        } else {
            assert(post.pet_battles@[i1] == mid[i1]);
            lemma_pet_entry_index_of(post.pet_battles@, b.pet_id@, i1);
        }
    }
}

/// The public records of the battles in `ids` that still exist, in index
/// order.
pub open spec fn spec_pet_battle_list(battles: Seq<BattleInfo>, ids: Seq<u64>) -> Seq<
    BattleInfoWithoutInitiator,
>
    decreases ids.len(),
{
    if ids.len() == 0 {
        Seq::empty()
    } else {
        let rest = spec_pet_battle_list(battles, ids.drop_last());
        if has_battle(battles, ids.last()) {
            rest.push(battles[battle_index(battles, ids.last())].spec_without_initiator())
        } else {
            rest
        }
    }
}

impl Store {
    /// The public battle records indexed under one pet.
    pub open spec fn spec_battles_for_pet(self, pet: Seq<char>) -> Seq<BattleInfoWithoutInitiator> {
        if has_pet_entry(self.pet_battles@, pet) {
            spec_pet_battle_list(
                self.battles@,
                self.pet_battles@[pet_entry_index(self.pet_battles@, pet)].battle_ids@,
            )
        } else {
            Seq::empty()
        }
    }

    /// The public battle records of all the given pets, in the given pet
    /// order.
    pub open spec fn spec_my_battles(self, pet_ids: Seq<String>) -> Seq<BattleInfoWithoutInitiator>
        decreases pet_ids.len(),
    {
        if pet_ids.len() == 0 {
            Seq::empty()
        } else {
            self.spec_my_battles(pet_ids.drop_last()) + self.spec_battles_for_pet(
                pet_ids.last()@,
            )
        }
    }

    /// Collects, for each of the caller's pets, every indexed battle that
    /// still has a record, shown without the initiator's address.
    pub fn my_battles(&self, pet_ids: &Vec<String>) -> (r: Vec<BattleInfoWithoutInitiator>)
        requires
            self.wf(),
        ensures
            r@ == self.spec_my_battles(pet_ids@),
    {
        let mut out: Vec<BattleInfoWithoutInitiator> = Vec::new();
        let n = pet_ids.len();
        let mut i: usize = 0;
        while i < n
            invariant
                self.wf(),
                i <= n,
                n == pet_ids@.len(),
                out@ == self.spec_my_battles(pet_ids@.take(i as int)),
            decreases n - i,
        {
            proof {
                assert(pet_ids@.take(i + 1).drop_last() =~= pet_ids@.take(i as int));
                assert(pet_ids@.take(i + 1).last() == pet_ids@[i as int]);
            }
            match self.find_pet_entry(&pet_ids[i]) {
                Some(e) => {
                    let ids = &self.pet_battles[e].battle_ids;
                    let m = ids.len();
                    let mut k: usize = 0;
                    while k < m
                        invariant
                            self.wf(),
                            k <= m,
                            e < self.pet_battles@.len(),
                            ids == &self.pet_battles[e as int].battle_ids,
                            m == ids@.len(),
                            out@ == self.spec_my_battles(pet_ids@.take(i as int))
                                + spec_pet_battle_list(self.battles@, ids@.take(k as int)),
                        decreases m - k,
                    {
                        proof {
                            assert(ids@.take(k + 1).drop_last() =~= ids@.take(k as int));
                            assert(ids@.take(k + 1).last() == ids@[k as int]);
                        }
                        match self.find_battle(ids[k]) {
                            Some(bi) => {
                                out.push(self.battles[bi].without_initiator());
                            },
                            None => {},
                        }
                        k += 1;
                    }
                    proof {
                        assert(ids@.take(m as int) =~= ids@);
                        assert(e as int == pet_entry_index(self.pet_battles@, pet_ids@[i as int]@));
                    }
                },
                None => {
                    proof {
                        assert(self.spec_battles_for_pet(pet_ids@[i as int]@)
                            =~= Seq::<BattleInfoWithoutInitiator>::empty());
                    }
                },
            }
            i += 1;
        }
        proof {
            assert(pet_ids@.take(n as int) =~= pet_ids@);
        }
        out
    }
}

} // verus!
