//! The explicit state every request transitions over: configuration, the
//! two monotonic counters and the keyed collections of pets, quests, quest
//! history and battles. Each request receives a mutable handle to this
//! store; a failing request leaves it untouched.

use vstd::prelude::*;

use crate::battle::BattleInfo;
use crate::battle::BattleStatus;
use crate::pet::PetState;
use crate::quest::{Quest, QuestHistory, QUEST_EXPLORE_TIME_SECONDS};
use crate::token_id::{lemma_pet_token_id_injective, pet_token_id_seq};

verus! {

/// Process-wide configuration, set once at instantiation and immutable
/// thereafter.
pub struct Config {
    pub admin: String,
    /// The ceiling for every sampled per-stat maximum.
    pub max_stats: u16,
    /// The entropy string mixed into seed generation.
    pub entropy: String,
}

/// The four quest slots of one address.
pub struct AddressQuests {
    pub address: String,
    pub quests: Vec<Quest>,
}

/// The append-only quest history of one address.
pub struct AddressHistory {
    pub address: String,
    pub entries: Vec<QuestHistory>,
}

/// The reverse index from one pet to the battles it participates in.
pub struct PetBattleIds {
    pub pet_id: String,
    pub battle_ids: Vec<u64>,
}

/// The full persisted state.
pub struct Store {
    pub config: Config,
    /// Incremented exactly once per minted pet, never decremented.
    pub pet_counter: u64,
    /// Incremented exactly once per proposed battle, never decremented.
    pub battle_counter: u64,
    pub pets: Vec<PetState>,
    pub quests: Vec<AddressQuests>,
    pub quest_history: Vec<AddressHistory>,
    pub battles: Vec<BattleInfo>,
    pub pet_battles: Vec<PetBattleIds>,
}

// ---------------------------------------------------------------------
// Lookup specifications for the keyed collections.
// ---------------------------------------------------------------------
/// Some pet in `pets` has id `id`.
pub open spec fn has_pet(pets: Seq<PetState>, id: Seq<char>) -> bool {
    exists|i: int| 0 <= i < pets.len() && pets[i].pet_id@ == id
}

/// The index of the pet with id `id` (meaningful under `has_pet` and
/// distinct ids).
pub open spec fn pet_index(pets: Seq<PetState>, id: Seq<char>) -> int {
    choose|i: int| 0 <= i < pets.len() && pets[i].pet_id@ == id
}

/// No two pets share an id.
pub open spec fn pet_ids_distinct(pets: Seq<PetState>) -> bool {
    forall|i: int, j: int|
        0 <= i < j < pets.len() ==> #[trigger] pets[i].pet_id@ != #[trigger] pets[j].pet_id@
}

/// Some entry in `qs` belongs to `addr`.
pub open spec fn has_addr(qs: Seq<AddressQuests>, addr: Seq<char>) -> bool {
    exists|i: int| 0 <= i < qs.len() && qs[i].address@ == addr
}

/// The index of the entry belonging to `addr`.
pub open spec fn addr_index(qs: Seq<AddressQuests>, addr: Seq<char>) -> int {
    choose|i: int| 0 <= i < qs.len() && qs[i].address@ == addr
}

/// No two quest entries share an address.
pub open spec fn quest_addrs_distinct(qs: Seq<AddressQuests>) -> bool {
    forall|i: int, j: int|
        0 <= i < j < qs.len() ==> #[trigger] qs[i].address@ != #[trigger] qs[j].address@
}

/// Some quest in `list` has type `t`.
pub open spec fn has_quest_type(list: Seq<Quest>, t: QuestType) -> bool {
    exists|i: int| 0 <= i < list.len() && list[i].quest_type == t
}

/// The position of the quest of type `t` in `list`.
pub open spec fn quest_pos(list: Seq<Quest>, t: QuestType) -> int {
    choose|i: int| 0 <= i < list.len() && list[i].quest_type == t
}

/// No two quests in `list` share a type.
pub open spec fn quest_types_distinct(list: Seq<Quest>) -> bool {
    forall|i: int, j: int|
        0 <= i < j < list.len() ==> #[trigger] list[i].quest_type != #[trigger] list[j].quest_type
}

/// Some history entry in `h` belongs to `addr`.
pub open spec fn has_history(h: Seq<AddressHistory>, addr: Seq<char>) -> bool {
    exists|i: int| 0 <= i < h.len() && h[i].address@ == addr
}

/// The index of the history entry belonging to `addr`.
pub open spec fn history_index(h: Seq<AddressHistory>, addr: Seq<char>) -> int {
    choose|i: int| 0 <= i < h.len() && h[i].address@ == addr
}

/// No two history entries share an address.
pub open spec fn history_addrs_distinct(h: Seq<AddressHistory>) -> bool {
    forall|i: int, j: int|
        0 <= i < j < h.len() ==> #[trigger] h[i].address@ != #[trigger] h[j].address@
}

/// Some battle in `bs` has id `id`.
pub open spec fn has_battle(bs: Seq<BattleInfo>, id: u64) -> bool {
    exists|i: int| 0 <= i < bs.len() && bs[i].id == id
}

/// The index of the battle with id `id`.
pub open spec fn battle_index(bs: Seq<BattleInfo>, id: u64) -> int {
    choose|i: int| 0 <= i < bs.len() && bs[i].id == id
}

/// No two battles share an id.
pub open spec fn battle_ids_distinct(bs: Seq<BattleInfo>) -> bool {
    forall|i: int, j: int| 0 <= i < j < bs.len() ==> #[trigger] bs[i].id != #[trigger] bs[j].id
}

/// Some reverse-index entry in `pb` belongs to pet `id`.
pub open spec fn has_pet_entry(pb: Seq<PetBattleIds>, id: Seq<char>) -> bool {
    exists|i: int| 0 <= i < pb.len() && pb[i].pet_id@ == id
}

/// The index of the reverse-index entry of pet `id`.
pub open spec fn pet_entry_index(pb: Seq<PetBattleIds>, id: Seq<char>) -> int {
    choose|i: int| 0 <= i < pb.len() && pb[i].pet_id@ == id
}

/// No two reverse-index entries share a pet id.
pub open spec fn pet_entries_distinct(pb: Seq<PetBattleIds>) -> bool {
    forall|i: int, j: int|
        0 <= i < j < pb.len() ==> #[trigger] pb[i].pet_id@ != #[trigger] pb[j].pet_id@
}

/// `id` is a token id the pet counter has already passed.
pub open spec fn pet_id_from_counter(id: Seq<char>, counter: u64) -> bool {
    exists|k: u64| k < counter && id == pet_token_id_seq(k)
}

// ---------------------------------------------------------------------
// Well-formedness.
// ---------------------------------------------------------------------
/// The shape every stored quest list keeps: one slot per quest type, all
/// four types distinct, sampled fields in range, and exploration
/// timestamps late enough that the quest's start time can be recovered.
pub open spec fn quest_list_wf(list: Seq<Quest>) -> bool {
    &&& list.len() == 4
    &&& quest_types_distinct(list)
    &&& forall|i: int| 0 <= i < list.len() ==> (#[trigger] list[i]).rolled_wf()
    &&& forall|i: int|
        0 <= i < list.len() ==> ((#[trigger] list[i]).finished_exploring is Some
            ==> list[i].finished_exploring->0 >= QUEST_EXPLORE_TIME_SECONDS)
}

/// The shape every stored battle keeps: allocated below the counter, a
/// wager that twice fits a `u64`, and an outcome exactly when accepted.
pub open spec fn battle_wf(b: BattleInfo, counter: u64) -> bool {
    &&& b.id < counter
    &&& b.wager <= u64::MAX / 2
    &&& (b.status == BattleStatus::Pending <==> b.outcome is None)
    &&& (b.status == BattleStatus::Accepted <==> b.outcome is Some)
}

impl Store {
    pub open spec fn pets_wf(self) -> bool {
        &&& pet_ids_distinct(self.pets@)
        &&& forall|i: int|
            0 <= i < self.pets@.len() ==> (#[trigger] self.pets@[i]).current.le(self.pets@[i].max)
        &&& forall|i: int|
            0 <= i < self.pets@.len() ==> pet_id_from_counter(
                (#[trigger] self.pets@[i]).pet_id@,
                self.pet_counter,
            )
    }

    pub open spec fn quests_wf(self) -> bool {
        &&& quest_addrs_distinct(self.quests@)
        &&& forall|i: int|
            0 <= i < self.quests@.len() ==> quest_list_wf((#[trigger] self.quests@[i]).quests@)
    }

    pub open spec fn battles_wf(self) -> bool {
        &&& battle_ids_distinct(self.battles@)
        &&& forall|i: int|
            0 <= i < self.battles@.len() ==> battle_wf(
                #[trigger] self.battles@[i],
                self.battle_counter,
            )
    }

    /// The invariant every request preserves.
    pub open spec fn wf(self) -> bool {
        &&& self.config.max_stats >= 12
        &&& self.pets_wf()
        &&& self.quests_wf()
        &&& self.battles_wf()
        &&& history_addrs_distinct(self.quest_history@)
        &&& pet_entries_distinct(self.pet_battles@)
    }
}

/// Every pet of a well-formed store keeps each current stat at or below
/// its per-stat cap. Every request requires and preserves `wf`, so this
/// holds after any sequence of upgrades.
pub proof fn lemma_stats_capped(s: Store, i: int, stat: crate::stats::Stat)
    requires
        s.wf(),
        0 <= i < s.pets@.len(),
    ensures
        s.pets@[i].current.spec_get_stat(stat) <= s.pets@[i].max.spec_get_stat(stat),
{
    s.pets@[i].current.lemma_le_is_stat_wise(s.pets@[i].max);
}

// ---------------------------------------------------------------------
// With distinct keys, a matching index is the lookup index.
// ---------------------------------------------------------------------
pub proof fn lemma_pet_index_of(pets: Seq<PetState>, id: Seq<char>, i: int)
    requires
        pet_ids_distinct(pets),
        0 <= i < pets.len(),
        pets[i].pet_id@ == id,
    ensures
        has_pet(pets, id),
        pet_index(pets, id) == i,
{
    assert(has_pet(pets, id));
    let j = pet_index(pets, id);
    if i < j {
        assert(pets[i].pet_id@ != pets[j].pet_id@);
    } else if j < i {
        assert(pets[j].pet_id@ != pets[i].pet_id@);
    }
}

pub proof fn lemma_addr_index_of(qs: Seq<AddressQuests>, addr: Seq<char>, i: int)
    requires
        quest_addrs_distinct(qs),
        0 <= i < qs.len(),
        qs[i].address@ == addr,
    ensures
        has_addr(qs, addr),
        addr_index(qs, addr) == i,
{
    assert(has_addr(qs, addr));
    let j = addr_index(qs, addr);
    if i < j {
        assert(qs[i].address@ != qs[j].address@);
    } else if j < i {
        assert(qs[j].address@ != qs[i].address@);
    }
}

pub proof fn lemma_quest_pos_of(list: Seq<Quest>, t: QuestType, i: int)
    requires
        quest_types_distinct(list),
        0 <= i < list.len(),
        list[i].quest_type == t,
    ensures
        has_quest_type(list, t),
        quest_pos(list, t) == i,
{
    assert(has_quest_type(list, t));
    let j = quest_pos(list, t);
    if i < j {
        assert(list[i].quest_type != list[j].quest_type);
    } else if j < i {
        assert(list[j].quest_type != list[i].quest_type);
    }
}

pub proof fn lemma_history_index_of(h: Seq<AddressHistory>, addr: Seq<char>, i: int)
    requires
        history_addrs_distinct(h),
        0 <= i < h.len(),
        h[i].address@ == addr,
    ensures
        has_history(h, addr),
        history_index(h, addr) == i,
{
    assert(has_history(h, addr));
    let j = history_index(h, addr);
    if i < j {
        assert(h[i].address@ != h[j].address@);
    } else if j < i {
        assert(h[j].address@ != h[i].address@);
    }
}

pub proof fn lemma_battle_index_of(bs: Seq<BattleInfo>, id: u64, i: int)
    requires
        battle_ids_distinct(bs),
        0 <= i < bs.len(),
        bs[i].id == id,
    ensures
        has_battle(bs, id),
        battle_index(bs, id) == i,
{
    assert(has_battle(bs, id));
    let j = battle_index(bs, id);
    if i < j {
        assert(bs[i].id != bs[j].id);
    } else if j < i {
        assert(bs[j].id != bs[i].id);
    }
}

pub proof fn lemma_pet_entry_index_of(pb: Seq<PetBattleIds>, id: Seq<char>, i: int)
    requires
        pet_entries_distinct(pb),
        0 <= i < pb.len(),
        pb[i].pet_id@ == id,
    ensures
        has_pet_entry(pb, id),
        pet_entry_index(pb, id) == i,
{
    assert(has_pet_entry(pb, id));
    let j = pet_entry_index(pb, id);
    if i < j {
        assert(pb[i].pet_id@ != pb[j].pet_id@);
    } else if j < i {
        assert(pb[j].pet_id@ != pb[i].pet_id@);
    }
}

/// Every stored pet id was allocated below the counter, so the id the
/// counter is about to allocate is fresh.
pub proof fn lemma_counter_id_fresh(pets: Seq<PetState>, counter: u64)
    requires
        forall|i: int|
            0 <= i < pets.len() ==> pet_id_from_counter((#[trigger] pets[i]).pet_id@, counter),
    ensures
        forall|i: int| 0 <= i < pets.len() ==> (#[trigger] pets[i]).pet_id@ != pet_token_id_seq(
            counter,
        ),
{
    assert forall|i: int| 0 <= i < pets.len() implies (#[trigger] pets[i]).pet_id@
        != pet_token_id_seq(counter) by {
        let k = choose|k: u64| k < counter && pets[i].pet_id@ == pet_token_id_seq(k);
        if pets[i].pet_id@ == pet_token_id_seq(counter) {
            lemma_pet_token_id_injective(k, counter);
        }
    }
}

/// Replacing pets without touching their ids keeps the id part of the
/// invariant.
pub proof fn lemma_pet_ids_pointwise(old_pets: Seq<PetState>, new_pets: Seq<PetState>, counter: u64)
    requires
        new_pets.len() == old_pets.len(),
        forall|i: int|
            0 <= i < new_pets.len() ==> (#[trigger] new_pets[i]).pet_id@ == old_pets[i].pet_id@,
        pet_ids_distinct(old_pets),
        forall|i: int|
            0 <= i < old_pets.len() ==> pet_id_from_counter(
                (#[trigger] old_pets[i]).pet_id@,
                counter,
            ),
    ensures
        pet_ids_distinct(new_pets),
        forall|i: int|
            0 <= i < new_pets.len() ==> pet_id_from_counter(
                (#[trigger] new_pets[i]).pet_id@,
                counter,
            ),
{
}

/// A raised counter still covers every id the lower counter covered.
pub proof fn lemma_from_counter_monotone(pets: Seq<PetState>, c1: u64, c2: u64)
    requires
        c1 <= c2,
        forall|i: int|
            0 <= i < pets.len() ==> pet_id_from_counter((#[trigger] pets[i]).pet_id@, c1),
    ensures
        forall|i: int|
            0 <= i < pets.len() ==> pet_id_from_counter((#[trigger] pets[i]).pet_id@, c2),
{
    assert forall|i: int| 0 <= i < pets.len() implies pet_id_from_counter(
        (#[trigger] pets[i]).pet_id@,
        c2,
    ) by {
        let k = choose|k: u64| k < c1 && pets[i].pet_id@ == pet_token_id_seq(k);
        assert(k < c2 && pets[i].pet_id@ == pet_token_id_seq(k));
    }
}

// ---------------------------------------------------------------------
// Exec lookups.
// ---------------------------------------------------------------------
use crate::quest::QuestType;

impl Store {
    /// Finds the index of the pet with the given id.
    pub(crate) fn find_pet(&self, pet_id: &String) -> (r: Option<usize>)
        requires
            pet_ids_distinct(self.pets@),
        ensures
            r is Some <==> has_pet(self.pets@, pet_id@),
            r is Some ==> r->0 < self.pets@.len() && r->0 == pet_index(self.pets@, pet_id@),
    {
        let n = self.pets.len();
        let mut i: usize = 0;
        while i < n
            invariant
                n == self.pets@.len(),
                i <= n,
                pet_ids_distinct(self.pets@),
                forall|j: int| 0 <= j < i ==> (#[trigger] self.pets@[j]).pet_id@ != pet_id@,
            decreases n - i,
        {
            if self.pets[i].pet_id == *pet_id {
                proof {
                    lemma_pet_index_of(self.pets@, pet_id@, i as int);
                }
                return Some(i);
            }
            i += 1;
        }
        None
    }

    /// Finds the index of the quest entry of the given address.
    pub(crate) fn find_addr_quests(&self, address: &String) -> (r: Option<usize>)
        requires
            quest_addrs_distinct(self.quests@),
        ensures
            r is Some <==> has_addr(self.quests@, address@),
            r is Some ==> r->0 < self.quests@.len() && r->0 == addr_index(self.quests@, address@),
    {
        let n = self.quests.len();
        let mut i: usize = 0;
        while i < n
            invariant
                n == self.quests@.len(),
                i <= n,
                quest_addrs_distinct(self.quests@),
                forall|j: int| 0 <= j < i ==> (#[trigger] self.quests@[j]).address@ != address@,
            decreases n - i,
        {
            if self.quests[i].address == *address {
                proof {
                    lemma_addr_index_of(self.quests@, address@, i as int);
                }
                return Some(i);
            }
            i += 1;
        }
        None
    }

    /// Finds the index of the history entry of the given address.
    pub(crate) fn find_history(&self, address: &String) -> (r: Option<usize>)
        requires
            history_addrs_distinct(self.quest_history@),
        ensures
            r is Some <==> has_history(self.quest_history@, address@),
            r is Some ==> r->0 < self.quest_history@.len() && r->0 == history_index(
                self.quest_history@,
                address@,
            ),
    {
        let n = self.quest_history.len();
        let mut i: usize = 0;
        while i < n
            invariant
                n == self.quest_history@.len(),
                i <= n,
                history_addrs_distinct(self.quest_history@),
                forall|j: int|
                    0 <= j < i ==> (#[trigger] self.quest_history@[j]).address@ != address@,
            decreases n - i,
        {
            if self.quest_history[i].address == *address {
                proof {
                    lemma_history_index_of(self.quest_history@, address@, i as int);
                }
                return Some(i);
            }
            i += 1;
        }
        None
    }

    /// Finds the index of the battle with the given id.
    pub(crate) fn find_battle(&self, battle_id: u64) -> (r: Option<usize>)
        requires
            battle_ids_distinct(self.battles@),
        ensures
            r is Some <==> has_battle(self.battles@, battle_id),
            r is Some ==> r->0 < self.battles@.len() && r->0 == battle_index(
                self.battles@,
                battle_id,
            ),
    {
        let n = self.battles.len();
        let mut i: usize = 0;
        while i < n
            invariant
                n == self.battles@.len(),
                i <= n,
                battle_ids_distinct(self.battles@),
                forall|j: int| 0 <= j < i ==> (#[trigger] self.battles@[j]).id != battle_id,
            decreases n - i,
        {
            if self.battles[i].id == battle_id {
                proof {
                    lemma_battle_index_of(self.battles@, battle_id, i as int);
                }
                return Some(i);
            }
            i += 1;
        }
        None
    }

    /// Finds the index of the reverse-index entry of the given pet.
    pub(crate) fn find_pet_entry(&self, pet_id: &String) -> (r: Option<usize>)
        requires
            pet_entries_distinct(self.pet_battles@),
        ensures
            r is Some <==> has_pet_entry(self.pet_battles@, pet_id@),
            r is Some ==> r->0 < self.pet_battles@.len() && r->0 == pet_entry_index(
                self.pet_battles@,
                pet_id@,
            ),
    {
        let n = self.pet_battles.len();
        let mut i: usize = 0;
        while i < n
            invariant
                n == self.pet_battles@.len(),
                i <= n,
                pet_entries_distinct(self.pet_battles@),
                forall|j: int| 0 <= j < i ==> (#[trigger] self.pet_battles@[j]).pet_id@ != pet_id@,
            decreases n - i,
        {
            if self.pet_battles[i].pet_id == *pet_id {
                proof {
                    lemma_pet_entry_index_of(self.pet_battles@, pet_id@, i as int);
                }
                return Some(i);
            }
            i += 1;
        }
        None
    }
}

/// Finds the position of the quest of type `t` in a quest list.
pub(crate) fn find_quest_pos(list: &Vec<Quest>, t: QuestType) -> (r: Option<usize>)
    requires
        quest_types_distinct(list@),
    ensures
        r is Some <==> has_quest_type(list@, t),
        r is Some ==> r->0 < list@.len() && r->0 == quest_pos(list@, t),
{
    let n = list.len();
    let mut i: usize = 0;
    while i < n
        invariant
            n == list@.len(),
            i <= n,
            quest_types_distinct(list@),
            forall|j: int| 0 <= j < i ==> (#[trigger] list@[j]).quest_type != t,
        decreases n - i,
    {
        if list[i].quest_type == t {
            proof {
                lemma_quest_pos_of(list@, t, i as int);
            }
            return Some(i);
        }
        i += 1;
    }
    None
}

impl Store {
    /// Creates the store at instantiation time: the configuration is
    /// fixed, both counters start at zero and every collection is empty.
    pub fn new(admin: String, max_stats: u16, entropy: String) -> (s: Store)
        requires
            max_stats >= 12,
        ensures
            s.wf(),
            s.config.admin == admin,
            s.config.max_stats == max_stats,
            s.config.entropy == entropy,
            s.pet_counter == 0,
            s.battle_counter == 0,
            s.pets@ == Seq::<PetState>::empty(),
            s.quests@ == Seq::<AddressQuests>::empty(),
            s.quest_history@ == Seq::<AddressHistory>::empty(),
            s.battles@ == Seq::<BattleInfo>::empty(),
            s.pet_battles@ == Seq::<PetBattleIds>::empty(),
    {
        Store {
            config: Config { admin, max_stats, entropy },
            pet_counter: 0,
            battle_counter: 0,
            pets: Vec::new(),
            quests: Vec::new(),
            quest_history: Vec::new(),
            battles: Vec::new(),
            pet_battles: Vec::new(),
        }
    }
}

} // verus!
