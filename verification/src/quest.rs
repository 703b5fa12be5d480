//! Quests: the four per-address quest slots, their derived state machine,
//! and the deterministic outcome and loot computations.

use vstd::prelude::*;

use crate::stats::{PetStats, Stat};

verus! {

/// Seconds a quest spends exploring after it is started.
pub const QUEST_EXPLORE_TIME_SECONDS: u64 = 30;

/// Seconds from the start of a quest until its cooldown has elapsed.
pub const QUEST_COOLDOWN_SECONDS: u64 = 60;

/// The closed enumeration of quest types, one slot of each per address.
#[derive(Clone, Copy, Debug, PartialEq, Eq, Structural)]
pub enum QuestType {
    TrialOfResilience,
    TrialOfTitans,
    TrialOfEndurance,
    TrialOfWisdom,
}

/// Static data attached to a quest type.
pub struct QuestData {
    /// The stat that governs the quest's outcome.
    pub stat: Stat,
}

/// How a claimed quest went.
#[derive(Clone, Copy, Debug, PartialEq, Eq, Structural)]
pub enum QuestOutcome {
    Fail,
    Pass,
    ExceptionalPass,
}

/// The derived state of a quest slot at a given time.
#[derive(Clone, Copy, Debug, PartialEq, Eq, Structural)]
pub enum QuestStatus {
    Available,
    InProgress,
    Claimable,
    OnCooldown,
}

/// One quest slot. The state machine is derived from these fields rather
/// than stored explicitly: see [`spec_quest_status`].
#[derive(Debug, PartialEq, Eq)]
pub struct Quest {
    /// The pet currently assigned to the quest, if any.
    pub pet_id: Option<String>,
    pub quest_type: QuestType,
    /// True from the start of a quest until its rewards are claimed.
    pub awaiting_claiming: bool,
    /// When the current exploration ends, if one was started.
    pub finished_exploring: Option<u64>,
    /// When the cooldown of the current cycle ends, if one was started.
    pub finished_cooldown: Option<u64>,
    pub base_loot: u16,
    pub difficulty: u16,
    /// Count of past successes; raises the threshold and never decreases.
    pub difficulty_increment: u16,
}

/// The loot paid for each possible outcome of a quest, recomputed fresh
/// from the quest's current fields.
#[derive(Clone, Copy, Debug, PartialEq, Eq, Structural)]
pub struct Loot {
    pub fail: u32,
    pub pass: u32,
    pub exceptional_pass: u32,
}

/// An append-only history entry, recorded when a quest is claimed. Never
/// mutated or removed afterwards.
#[derive(Debug, PartialEq, Eq)]
pub struct QuestHistory {
    pub pet_id: String,
    /// The quest type's display label.
    pub quest_type: String,
    pub time_started: u64,
    pub time_ended: u64,
    pub loot_collected: u32,
    /// The outcome's display label.
    pub outcome: String,
}

impl Clone for QuestHistory {
    fn clone(&self) -> (r: Self)
        ensures
            r == *self,
    {
        let r = QuestHistory {
            pet_id: self.pet_id.clone(),
            quest_type: self.quest_type.clone(),
            time_started: self.time_started,
            time_ended: self.time_ended,
            loot_collected: self.loot_collected,
            outcome: self.outcome.clone(),
        };
        proof {
            assert(r.pet_id == self.pet_id);
            assert(r.quest_type == self.quest_type);
            assert(r.outcome == self.outcome);
        }
        r
    }
}

/// The answer to a quest query: one summary per quest slot, with the
/// derived status, the outcome a claim would yield if one is due, and the
/// current loot table.
#[derive(Clone, Copy, Debug, PartialEq, Eq, Structural)]
pub struct QuestSummary {
    pub status: QuestStatus,
    pub quest_type: QuestType,
    pub finished_exploring: Option<u64>,
    pub finished_cooldown: Option<u64>,
    pub outcome: Option<QuestOutcome>,
    pub loot: Loot,
}

/// Which `QuestType` a textual quest name denotes. Unrecognized input
/// defaults to `TrialOfTitans`: a documented quirk of the request surface,
/// kept as the engine's unknown-input policy.
pub open spec fn quest_type_of_string(s: Seq<char>) -> QuestType {
    if s == "Trial Of Resilience"@ {
        QuestType::TrialOfResilience
    } else if s == "Trial Of Titans"@ {
        QuestType::TrialOfTitans
    } else if s == "Trial Of Endurance"@ {
        QuestType::TrialOfEndurance
    } else if s == "Trial Of Wisdom"@ {
        QuestType::TrialOfWisdom
    } else {
        QuestType::TrialOfTitans
    }
}

/// The display label of a quest type.
pub open spec fn quest_type_label(t: QuestType) -> Seq<char> {
    match t {
        QuestType::TrialOfResilience => "Trial Of Resilience"@,
        QuestType::TrialOfTitans => "Trial Of Titans"@,
        QuestType::TrialOfEndurance => "Trial Of Endurance"@,
        QuestType::TrialOfWisdom => "Trial Of Wisdom"@,
    }
}

/// The stat that governs a quest type's outcome.
pub open spec fn governing_stat(t: QuestType) -> Stat {
    match t {
        QuestType::TrialOfResilience => Stat::Health,
        QuestType::TrialOfTitans => Stat::Strength,
        QuestType::TrialOfEndurance => Stat::Stamina,
        QuestType::TrialOfWisdom => Stat::Intelligence,
    }
}

impl QuestType {
    pub fn to_string(self) -> (r: String)
        ensures
            r@ == quest_type_label(self),
    {
        match self {
            QuestType::TrialOfResilience => String::from_str("Trial Of Resilience"),
            QuestType::TrialOfTitans => String::from_str("Trial Of Titans"),
            QuestType::TrialOfEndurance => String::from_str("Trial Of Endurance"),
            QuestType::TrialOfWisdom => String::from_str("Trial Of Wisdom"),
        }
    }

    /// Parses a quest name, defaulting to `TrialOfTitans` on unrecognized
    /// input.
    pub fn from_string(string: String) -> (r: Self)
        ensures
            r == quest_type_of_string(string@),
    {
        if string == String::from_str("Trial Of Resilience") {
            QuestType::TrialOfResilience
        } else if string == String::from_str("Trial Of Titans") {
            QuestType::TrialOfTitans
        } else if string == String::from_str("Trial Of Endurance") {
            QuestType::TrialOfEndurance
        } else if string == String::from_str("Trial Of Wisdom") {
            QuestType::TrialOfWisdom
        } else {
            QuestType::TrialOfTitans
        }
    }

    pub fn get_quest_data(self) -> (r: QuestData)
        ensures
            r.stat == governing_stat(self),
    {
        match self {
            QuestType::TrialOfResilience => QuestData { stat: Stat::Health },
            QuestType::TrialOfTitans => QuestData { stat: Stat::Strength },
            QuestType::TrialOfEndurance => QuestData { stat: Stat::Stamina },
            QuestType::TrialOfWisdom => QuestData { stat: Stat::Intelligence },
        }
    }
}

/// The display label of an outcome.
pub open spec fn outcome_label(o: QuestOutcome) -> Seq<char> {
    match o {
        QuestOutcome::Fail => "Fail"@,
        QuestOutcome::Pass => "Pass"@,
        QuestOutcome::ExceptionalPass => "Exceptional Pass"@,
    }
}

impl QuestOutcome {
    pub fn to_string(self) -> (r: String)
        ensures
            r@ == outcome_label(self),
    {
        match self {
            QuestOutcome::Fail => String::from_str("Fail"),
            QuestOutcome::Pass => String::from_str("Pass"),
            QuestOutcome::ExceptionalPass => String::from_str("Exceptional Pass"),
        }
    }
}

impl Clone for Quest {
    fn clone(&self) -> (r: Self)
        ensures
            r == *self,
    {
        let r = Quest {
            pet_id: self.pet_id.clone(),
            quest_type: self.quest_type,
            awaiting_claiming: self.awaiting_claiming,
            finished_exploring: self.finished_exploring,
            finished_cooldown: self.finished_cooldown,
            base_loot: self.base_loot,
            difficulty: self.difficulty,
            difficulty_increment: self.difficulty_increment,
        };
        proof {
            assert(r.pet_id == self.pet_id);
        }
        r
    }
}

impl Quest {
    /// The sampled fields a freshly rolled quest must satisfy.
    pub open spec fn rolled_wf(self) -> bool {
        1 <= self.base_loot <= 5 && 1 <= self.difficulty <= 3
    }
}

/// The quest's total threshold: its difficulty raised by two for each past
/// success.
pub open spec fn total_to_beat(q: Quest) -> int {
    q.difficulty + 2 * q.difficulty_increment
}

/// Ceiling of half the threshold: the margin at which a pass becomes
/// exceptional.
pub open spec fn half_threshold(q: Quest) -> int {
    (total_to_beat(q) + 1) / 2
}

/// The margin by which the pet's governing stat plus its luck bonus beats
/// (or misses) the threshold.
pub open spec fn outcome_margin(stats: PetStats, q: Quest) -> int {
    stats.spec_get_stat(governing_stat(q.quest_type)) + (stats.luck + 1) / 2 - total_to_beat(q)
}

/// The outcome of claiming quest `q` with a pet whose current stats are
/// `stats`: deterministic given the stored state.
pub open spec fn spec_outcome(stats: PetStats, q: Quest) -> QuestOutcome {
    if outcome_margin(stats, q) < 0 {
        QuestOutcome::Fail
    } else if outcome_margin(stats, q) < half_threshold(q) {
        QuestOutcome::Pass
    } else {
        QuestOutcome::ExceptionalPass
    }
}

/// The base loot value from which all three loot amounts derive.
pub open spec fn loot_base(q: Quest) -> int {
    q.base_loot + q.difficulty + q.difficulty_increment
}

/// The loot table of a quest.
pub open spec fn spec_loot(q: Quest) -> Loot {
    Loot {
        fail: (((loot_base(q) + 2) / 3) as u32),
        pass: (loot_base(q) as u32),
        exceptional_pass: ((2 * loot_base(q)) as u32),
    }
}

/// The loot paid for a given outcome.
pub open spec fn loot_for_outcome(l: Loot, o: QuestOutcome) -> u32 {
    match o {
        QuestOutcome::Fail => l.fail,
        QuestOutcome::Pass => l.pass,
        QuestOutcome::ExceptionalPass => l.exceptional_pass,
    }
}

/// The derived state of quest `q` at time `now`, evaluated in precedence
/// order InProgress > Claimable > OnCooldown > Available.
pub open spec fn spec_quest_status(q: Quest, now: u64) -> QuestStatus {
    if q.finished_exploring is Some && q.finished_exploring->0 > now {
        QuestStatus::InProgress
    } else if q.awaiting_claiming && q.pet_id is Some {
        QuestStatus::Claimable
    } else if q.finished_cooldown is Some && q.finished_cooldown->0 > now {
        QuestStatus::OnCooldown
    } else {
        QuestStatus::Available
    }
}

/// Computes the outcome the pet with current stats `stats` obtains on
/// quest `quest`: the governing stat plus half the pet's luck (rounded up)
/// is measured against the quest's threshold.
pub fn calculate_outcome(stats: &PetStats, quest: &Quest) -> (r: QuestOutcome)
    ensures
        r == spec_outcome(*stats, *quest),
{
    let stat = quest.quest_type.get_quest_data().stat;
    let stat_value = stats.get_stat(stat) as u32;
    let luck = stats.get_stat(Stat::Luck) as u32;
    let total_to_beat = quest.difficulty as u32 + 2 * quest.difficulty_increment as u32;
    let half_total_to_beat = (total_to_beat + 1) / 2;
    let total_stats = stat_value + (luck + 1) / 2;
    let difference = total_stats as i64 - total_to_beat as i64;
    if difference < 0 {
        QuestOutcome::Fail
    } else if difference < half_total_to_beat as i64 {
        QuestOutcome::Pass
    } else {
        QuestOutcome::ExceptionalPass
    }
}

/// Computes the loot table of `quest` from its current fields.
pub fn calculate_loot(quest: &Quest) -> (r: Loot)
    ensures
        r == spec_loot(*quest),
{
    let base = quest.base_loot as u32 + quest.difficulty as u32 + quest.difficulty_increment as u32;
    Loot { fail: (base + 2) / 3, pass: base, exceptional_pass: base * 2 }
}

/// Computes the derived state of `quest` at time `now`.
pub fn quest_status(quest: &Quest, now: u64) -> (r: QuestStatus)
    ensures
        r == spec_quest_status(*quest, now),
{
    match quest.finished_exploring {
        Some(finished_exploring) if finished_exploring > now => {
            return QuestStatus::InProgress;
        },
        _ => {},
    }
    if quest.awaiting_claiming && quest.pet_id.is_some() {
        return QuestStatus::Claimable;
    }
    match quest.finished_cooldown {
        Some(finished_cooldown) if finished_cooldown > now => {
            return QuestStatus::OnCooldown;
        },
        _ => {},
    }
    QuestStatus::Available
}

/// The loot amounts of any quest are ordered: the fail loot never exceeds
/// the pass loot, which never exceeds the exceptional-pass loot.
pub proof fn lemma_loot_ordered(q: Quest)
    ensures
        spec_loot(q).fail <= spec_loot(q).pass <= spec_loot(q).exceptional_pass,
{
    assert(loot_base(q) >= 0);
    assert((loot_base(q) + 2) / 3 <= loot_base(q));
}

/// A quest whose exploration timestamp is cleared and whose claim flag is
/// down is never `Claimable`: at any time it shows `Available` or
/// `OnCooldown`. Claiming leaves the quest in exactly that shape, so a
/// status query straight after a claim never shows `Claimable` again.
pub proof fn lemma_not_claimable_after_claim(q: Quest, now: u64)
    requires
        q.finished_exploring is None,
        !q.awaiting_claiming,
    ensures
        spec_quest_status(q, now) != QuestStatus::Claimable,
        spec_quest_status(q, now) == QuestStatus::Available || spec_quest_status(q, now)
            == QuestStatus::OnCooldown,
{
}

} // verus!
