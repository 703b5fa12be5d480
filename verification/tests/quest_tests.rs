use pet_quest::quest::{
    calculate_loot, calculate_outcome, quest_status, Quest, QuestOutcome, QuestStatus, QuestType,
};
use pet_quest::stats::{PetStats, Stat};

fn idle_quest(quest_type: QuestType, base_loot: u16, difficulty: u16, increment: u16) -> Quest {
    Quest {
        pet_id: None,
        quest_type,
        awaiting_claiming: false,
        finished_exploring: None,
        finished_cooldown: None,
        base_loot,
        difficulty,
        difficulty_increment: increment,
    }
}

#[test]
fn quest_type_from_string_parses_each_name() {
    assert_eq!(
        QuestType::from_string(String::from("Trial Of Resilience")),
        QuestType::TrialOfResilience
    );
    assert_eq!(
        QuestType::from_string(String::from("Trial Of Titans")),
        QuestType::TrialOfTitans
    );
    assert_eq!(
        QuestType::from_string(String::from("Trial Of Endurance")),
        QuestType::TrialOfEndurance
    );
    assert_eq!(
        QuestType::from_string(String::from("Trial Of Wisdom")),
        QuestType::TrialOfWisdom
    );
}

#[test]
fn quest_type_from_string_defaults_to_titans() {
    assert_eq!(
        QuestType::from_string(String::from("Trial Of Chaos")),
        QuestType::TrialOfTitans
    );
    assert_eq!(
        QuestType::from_string(String::from("")),
        QuestType::TrialOfTitans
    );
}

#[test]
fn quest_type_to_string_round_trips() {
    for t in [
        QuestType::TrialOfResilience,
        QuestType::TrialOfTitans,
        QuestType::TrialOfEndurance,
        QuestType::TrialOfWisdom,
    ] {
        assert_eq!(QuestType::from_string(t.to_string()), t);
    }
    assert_eq!(
        QuestType::TrialOfWisdom.to_string(),
        String::from("Trial Of Wisdom")
    );
}

#[test]
fn governing_stats_match_quest_types() {
    assert_eq!(
        QuestType::TrialOfResilience.get_quest_data().stat,
        Stat::Health
    );
    assert_eq!(
        QuestType::TrialOfTitans.get_quest_data().stat,
        Stat::Strength
    );
    assert_eq!(
        QuestType::TrialOfEndurance.get_quest_data().stat,
        Stat::Stamina
    );
    assert_eq!(
        QuestType::TrialOfWisdom.get_quest_data().stat,
        Stat::Intelligence
    );
}

#[test]
fn outcome_labels() {
    assert_eq!(QuestOutcome::Fail.to_string(), String::from("Fail"));
    assert_eq!(QuestOutcome::Pass.to_string(), String::from("Pass"));
    assert_eq!(
        QuestOutcome::ExceptionalPass.to_string(),
        String::from("Exceptional Pass")
    );
}

#[test]
fn outcome_exceptional_pass_scenario() {
    // difficulty 2, no ramp: total_to_beat = 2, half_threshold = 1.
    // Governing stat 3 and luck 1 give margin 3 + 1 - 2 = 2 >= 1.
    let quest = idle_quest(QuestType::TrialOfResilience, 1, 2, 0);
    let stats = PetStats::new(3, 0, 0, 0, 1);
    assert_eq!(
        calculate_outcome(&stats, &quest),
        QuestOutcome::ExceptionalPass
    );
}

#[test]
fn outcome_fail_scenario() {
    // Same quest, governing stat 1 and luck 0: margin 1 + 0 - 2 = -1 < 0.
    let quest = idle_quest(QuestType::TrialOfResilience, 1, 2, 0);
    let stats = PetStats::new(1, 0, 0, 0, 0);
    assert_eq!(calculate_outcome(&stats, &quest), QuestOutcome::Fail);
}

#[test]
fn outcome_pass_scenario() {
    // Margin 2 + 0 - 2 = 0 lies in 0..1: a plain pass.
    let quest = idle_quest(QuestType::TrialOfResilience, 1, 2, 0);
    let stats = PetStats::new(2, 0, 0, 0, 0);
    assert_eq!(calculate_outcome(&stats, &quest), QuestOutcome::Pass);
}

#[test]
fn outcome_uses_the_governing_stat() {
    // A wisdom trial reads intelligence, not health.
    let quest = idle_quest(QuestType::TrialOfWisdom, 1, 2, 0);
    let smart = PetStats::new(0, 0, 0, 9, 0);
    let tough = PetStats::new(9, 0, 0, 0, 0);
    assert_eq!(
        calculate_outcome(&smart, &quest),
        QuestOutcome::ExceptionalPass
    );
    assert_eq!(calculate_outcome(&tough, &quest), QuestOutcome::Fail);
}

#[test]
fn outcome_ramp_raises_the_threshold() {
    // difficulty 1 with two past successes: total_to_beat = 5,
    // half_threshold = 3. Stat 5, luck 1 gives margin 5 + 1 - 5 = 1: Pass.
    let quest = idle_quest(QuestType::TrialOfTitans, 1, 1, 2);
    let stats = PetStats::new(0, 5, 0, 0, 1);
    assert_eq!(calculate_outcome(&stats, &quest), QuestOutcome::Pass);
}

#[test]
fn loot_exact_values() {
    // base = 3 + 2 + 1 = 6: fail (6+2)/3 = 2, pass 6, exceptional 12.
    let quest = idle_quest(QuestType::TrialOfEndurance, 3, 2, 1);
    let loot = calculate_loot(&quest);
    assert_eq!(loot.fail, 2);
    assert_eq!(loot.pass, 6);
    assert_eq!(loot.exceptional_pass, 12);
}

#[test]
fn loot_is_ordered_on_samples() {
    for base_loot in 1..=5u16 {
        for difficulty in 1..=3u16 {
            for increment in [0u16, 1, 7, 1000] {
                let quest = idle_quest(QuestType::TrialOfTitans, base_loot, difficulty, increment);
                let loot = calculate_loot(&quest);
                assert!(loot.fail <= loot.pass);
                assert!(loot.pass <= loot.exceptional_pass);
            }
        }
    }
}

#[test]
fn status_precedence() {
    let mut quest = idle_quest(QuestType::TrialOfTitans, 1, 1, 0);
    assert_eq!(quest_status(&quest, 50), QuestStatus::Available);

    quest.pet_id = Some(String::from("PET_0"));
    quest.awaiting_claiming = true;
    quest.finished_exploring = Some(130);
    quest.finished_cooldown = Some(160);
    // Exploration still running wins over everything.
    assert_eq!(quest_status(&quest, 100), QuestStatus::InProgress);
    // Once it has elapsed, the pending claim shows.
    assert_eq!(quest_status(&quest, 130), QuestStatus::Claimable);
    assert_eq!(quest_status(&quest, 500), QuestStatus::Claimable);

    // After the claim flag drops, the cooldown takes over, then fades.
    quest.awaiting_claiming = false;
    quest.pet_id = None;
    quest.finished_exploring = None;
    assert_eq!(quest_status(&quest, 130), QuestStatus::OnCooldown);
    assert_eq!(quest_status(&quest, 160), QuestStatus::Available);
}
