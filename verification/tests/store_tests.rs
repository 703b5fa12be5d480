use pet_quest::economy::TokenInstruction;
use pet_quest::error::Error;
use pet_quest::quest::{QuestOutcome, QuestStatus, QuestType};
use pet_quest::randomness::generate_seed;
use pet_quest::stats::Stat;
use pet_quest::store::Store;

fn new_store() -> Store {
    Store::new(String::from("admin"), 20, String::from("test entropy"))
}

#[test]
fn seed_is_deterministic() {
    let a = generate_seed("secret1caller", 42, "test entropy");
    let b = generate_seed("secret1caller", 42, "test entropy");
    assert_eq!(a, b);
}

#[test]
fn mint_allocates_sequential_token_ids() {
    let mut store = new_store();
    let caller = String::from("alice");
    let (id0, instr0) = store.mint_pet(&caller, caller.clone(), 1);
    let (id1, _) = store.mint_pet(&caller, caller.clone(), 2);
    assert_eq!(id0, String::from("PET_0"));
    assert_eq!(id1, String::from("PET_1"));
    assert_eq!(instr0.token_id, String::from("PET_0"));
    assert_eq!(instr0.owner, caller);
    assert_eq!(store.pet_counter, 2);
}

#[test]
fn mint_samples_stats_in_range() {
    let mut store = new_store();
    let caller = String::from("alice");
    let (id, _) = store.mint_pet(&caller, caller.clone(), 7);
    let pet = store.get_pet(&id).expect("pet stored");
    for stat in [
        Stat::Health,
        Stat::Strength,
        Stat::Stamina,
        Stat::Intelligence,
        Stat::Luck,
    ] {
        let current = pet.current.get_stat(stat);
        let max = pet.max.get_stat(stat);
        assert!((5..=8).contains(&current));
        assert!((12..=20).contains(&max));
        assert_eq!(pet.upgrade_costs.get_stat(stat), current * 5);
    }
    assert!(pet.on_quest.is_none());
}

#[test]
fn mint_is_deterministic_per_seed_context() {
    let caller = String::from("alice");
    let mut s1 = new_store();
    let mut s2 = new_store();
    let (id1, _) = s1.mint_pet(&caller, caller.clone(), 99);
    let (id2, _) = s2.mint_pet(&caller, caller.clone(), 99);
    let p1 = s1.get_pet(&id1).unwrap();
    let p2 = s2.get_pet(&id2).unwrap();
    assert_eq!(p1.current, p2.current);
    assert_eq!(p1.max, p2.max);
}

#[test]
fn first_mint_creates_four_available_quests() {
    let mut store = new_store();
    let caller = String::from("alice");
    assert_eq!(store.my_quests(&caller, 0), Err(Error::NotFound));
    store.mint_pet(&caller, caller.clone(), 1);
    let summaries = store.my_quests(&caller, 1).expect("quests created");
    assert_eq!(summaries.len(), 4);
    let mut types: Vec<QuestType> = Vec::new();
    for s in &summaries {
        assert_eq!(s.status, QuestStatus::Available);
        assert_eq!(s.outcome, None);
        assert!(s.loot.fail <= s.loot.pass && s.loot.pass <= s.loot.exceptional_pass);
        types.push(s.quest_type);
    }
    assert_eq!(
        types,
        vec![
            QuestType::TrialOfResilience,
            QuestType::TrialOfEndurance,
            QuestType::TrialOfTitans,
            QuestType::TrialOfWisdom,
        ]
    );
    for t in types {
        let q = store.get_quest(&caller, t).unwrap();
        assert!((1..=5).contains(&q.base_loot));
        assert!((1..=3).contains(&q.difficulty));
        assert_eq!(q.difficulty_increment, 0);
    }
}

#[test]
fn upgrade_burns_cost_and_raises_stat() {
    let mut store = new_store();
    let caller = String::from("alice");
    let (id, _) = store.mint_pet(&caller, caller.clone(), 1);
    let before = store.get_pet(&id).unwrap();
    let cost = u64::from(before.current.health) * 5;
    let r = store.upgrade_pet_stats(&caller, &caller, 1000, &id, Stat::Health);
    assert_eq!(
        r,
        Ok(TokenInstruction::Burn {
            owner: caller.clone(),
            amount: cost
        })
    );
    let after = store.get_pet(&id).unwrap();
    assert_eq!(after.current.health, before.current.health + 1);
    assert_eq!(after.current.strength, before.current.strength);
    assert_eq!(after.max, before.max);
}

#[test]
fn upgrade_at_cap_fails_with_invalid_state_and_changes_nothing() {
    let mut store = new_store();
    let caller = String::from("alice");
    let (id, _) = store.mint_pet(&caller, caller.clone(), 1);
    loop {
        let pet = store.get_pet(&id).unwrap();
        if pet.current.luck >= pet.max.luck {
            break;
        }
        store
            .upgrade_pet_stats(&caller, &caller, 100_000, &id, Stat::Luck)
            .expect("below the cap");
    }
    let before = store.get_pet(&id).unwrap();
    let r = store.upgrade_pet_stats(&caller, &caller, 100_000, &id, Stat::Luck);
    assert_eq!(r, Err(Error::InvalidState));
    let after = store.get_pet(&id).unwrap();
    assert_eq!(after, before);
    assert!(after.current.luck <= after.max.luck);
}

#[test]
fn upgrade_rejects_wrong_owner_unknown_pet_and_low_balance() {
    let mut store = new_store();
    let caller = String::from("alice");
    let other = String::from("bob");
    let (id, _) = store.mint_pet(&caller, caller.clone(), 1);
    assert_eq!(
        store.upgrade_pet_stats(&caller, &other, 1000, &id, Stat::Health),
        Err(Error::Unauthorized)
    );
    let unknown = String::from("PET_99");
    assert_eq!(
        store.upgrade_pet_stats(&caller, &caller, 1000, &unknown, Stat::Health),
        Err(Error::NotFound)
    );
    assert_eq!(
        store.upgrade_pet_stats(&caller, &caller, 0, &id, Stat::Health),
        Err(Error::InsufficientFunds)
    );
}

#[test]
fn start_quest_sets_clocks_and_snapshot() {
    let mut store = new_store();
    let caller = String::from("alice");
    let (id, _) = store.mint_pet(&caller, caller.clone(), 1);
    let r = store.send_pet_on_quest(&caller, &caller, &id, QuestType::TrialOfResilience, 100);
    assert_eq!(r, Ok(()));
    let q = store
        .get_quest(&caller, QuestType::TrialOfResilience)
        .unwrap();
    assert_eq!(q.pet_id, Some(id.clone()));
    assert_eq!(q.finished_exploring, Some(130));
    assert_eq!(q.finished_cooldown, Some(160));
    assert!(q.awaiting_claiming);
    let pet = store.get_pet(&id).unwrap();
    assert_eq!(pet.on_quest, Some(q));
    let summaries = store.my_quests(&caller, 100).unwrap();
    assert_eq!(summaries[0].status, QuestStatus::InProgress);
}

#[test]
fn start_quest_on_busy_pet_fails_and_changes_nothing() {
    let mut store = new_store();
    let caller = String::from("alice");
    let (id, _) = store.mint_pet(&caller, caller.clone(), 1);
    store
        .send_pet_on_quest(&caller, &caller, &id, QuestType::TrialOfResilience, 100)
        .unwrap();
    let wisdom_before = store.get_quest(&caller, QuestType::TrialOfWisdom).unwrap();
    let pet_before = store.get_pet(&id).unwrap();
    let r = store.send_pet_on_quest(&caller, &caller, &id, QuestType::TrialOfWisdom, 101);
    assert_eq!(r, Err(Error::InvalidState));
    assert_eq!(
        store.get_quest(&caller, QuestType::TrialOfWisdom).unwrap(),
        wisdom_before
    );
    assert_eq!(store.get_pet(&id).unwrap(), pet_before);
}

#[test]
fn start_quest_rejects_unavailable_quest() {
    let mut store = new_store();
    let caller = String::from("alice");
    let (id0, _) = store.mint_pet(&caller, caller.clone(), 1);
    let (id1, _) = store.mint_pet(&caller, caller.clone(), 2);
    store
        .send_pet_on_quest(&caller, &caller, &id0, QuestType::TrialOfTitans, 100)
        .unwrap();
    // The slot is exploring: a second pet cannot enter it.
    let r = store.send_pet_on_quest(&caller, &caller, &id1, QuestType::TrialOfTitans, 110);
    assert_eq!(r, Err(Error::InvalidState));
}

#[test]
fn claim_too_early_fails() {
    let mut store = new_store();
    let caller = String::from("alice");
    let (id, _) = store.mint_pet(&caller, caller.clone(), 1);
    store
        .send_pet_on_quest(&caller, &caller, &id, QuestType::TrialOfResilience, 100)
        .unwrap();
    let r = store.claim_quest_rewards(&caller, QuestType::TrialOfResilience, 120);
    assert_eq!(r, Err(Error::InvalidState));
}

#[test]
fn claim_pays_loot_logs_history_and_rerolls() {
    let mut store = new_store();
    let caller = String::from("alice");
    let (id, _) = store.mint_pet(&caller, caller.clone(), 1);
    store
        .send_pet_on_quest(&caller, &caller, &id, QuestType::TrialOfResilience, 100)
        .unwrap();
    let q = store
        .get_quest(&caller, QuestType::TrialOfResilience)
        .unwrap();
    // A fresh pet always clears a fresh quest exceptionally: its governing
    // stat is at least 5 and half the threshold at most 2.
    let expected = 2 * (u64::from(q.base_loot) + u64::from(q.difficulty));

    let r = store.claim_quest_rewards(&caller, QuestType::TrialOfResilience, 130);
    assert_eq!(
        r,
        Ok(TokenInstruction::Mint {
            recipient: caller.clone(),
            amount: expected
        })
    );

    let history = store.get_quest_history(&caller).unwrap();
    assert_eq!(history.len(), 1);
    let entry = &history[0];
    assert_eq!(entry.pet_id, id);
    assert_eq!(entry.quest_type, String::from("Trial Of Resilience"));
    assert_eq!(entry.time_started, 100);
    assert_eq!(entry.time_ended, 130);
    assert_eq!(entry.loot_collected as u64, expected);
    assert_eq!(entry.outcome, String::from("Exceptional Pass"));

    let pet = store.get_pet(&id).unwrap();
    assert!(pet.on_quest.is_none());

    let rerolled = store
        .get_quest(&caller, QuestType::TrialOfResilience)
        .unwrap();
    assert_eq!(rerolled.pet_id, None);
    assert_eq!(rerolled.finished_exploring, None);
    assert!(!rerolled.awaiting_claiming);
    assert_eq!(rerolled.finished_cooldown, Some(160));
    assert!((1..=5).contains(&rerolled.base_loot));
    assert!((1..=3).contains(&rerolled.difficulty));
    // An exceptional pass ramps the difficulty by one or two.
    assert!((1..=2).contains(&rerolled.difficulty_increment));
}

#[test]
fn status_after_claim_is_never_claimable() {
    let mut store = new_store();
    let caller = String::from("alice");
    let (id, _) = store.mint_pet(&caller, caller.clone(), 1);
    store
        .send_pet_on_quest(&caller, &caller, &id, QuestType::TrialOfResilience, 100)
        .unwrap();
    store
        .claim_quest_rewards(&caller, QuestType::TrialOfResilience, 130)
        .unwrap();
    // Still cooling down right after the claim, available once that ends.
    let now_summaries = store.my_quests(&caller, 130).unwrap();
    assert_eq!(now_summaries[0].status, QuestStatus::OnCooldown);
    let later_summaries = store.my_quests(&caller, 160).unwrap();
    assert_eq!(later_summaries[0].status, QuestStatus::Available);
}

#[test]
fn second_claim_of_the_same_cycle_fails() {
    let mut store = new_store();
    let caller = String::from("alice");
    let (id, _) = store.mint_pet(&caller, caller.clone(), 1);
    store
        .send_pet_on_quest(&caller, &caller, &id, QuestType::TrialOfResilience, 100)
        .unwrap();
    store
        .claim_quest_rewards(&caller, QuestType::TrialOfResilience, 130)
        .unwrap();
    assert_eq!(
        store.claim_quest_rewards(&caller, QuestType::TrialOfResilience, 131),
        Err(Error::InvalidState)
    );
    assert_eq!(store.get_quest_history(&caller).unwrap().len(), 1);
}

#[test]
fn difficulty_increment_never_decreases_over_claims() {
    let mut store = new_store();
    let caller = String::from("alice");
    let (id, _) = store.mint_pet(&caller, caller.clone(), 1);
    let mut now: u64 = 100;
    let mut last_increment: u16 = 0;
    for _ in 0..5 {
        store
            .send_pet_on_quest(&caller, &caller, &id, QuestType::TrialOfWisdom, now)
            .unwrap();
        let r = store.claim_quest_rewards(&caller, QuestType::TrialOfWisdom, now + 30);
        assert!(r.is_ok());
        let q = store.get_quest(&caller, QuestType::TrialOfWisdom).unwrap();
        assert!(q.difficulty_increment >= last_increment);
        last_increment = q.difficulty_increment;
        now += 100;
    }
}

#[test]
fn release_rejects_inflight_pet_then_deletes_it() {
    let mut store = new_store();
    let caller = String::from("alice");
    let (id, _) = store.mint_pet(&caller, caller.clone(), 1);
    store
        .send_pet_on_quest(&caller, &caller, &id, QuestType::TrialOfEndurance, 100)
        .unwrap();
    assert_eq!(
        store.release_pet(&caller, &caller, &id, 110),
        Err(Error::InvalidState)
    );
    assert_eq!(store.release_pet(&caller, &caller, &id, 130), Ok(()));
    assert!(store.get_pet(&id).is_none());
}

#[test]
fn release_rejects_wrong_owner_and_unknown_pet() {
    let mut store = new_store();
    let caller = String::from("alice");
    let other = String::from("bob");
    let (id, _) = store.mint_pet(&caller, caller.clone(), 1);
    assert_eq!(
        store.release_pet(&caller, &other, &id, 10),
        Err(Error::Unauthorized)
    );
    let unknown = String::from("PET_9");
    assert_eq!(
        store.release_pet(&caller, &caller, &unknown, 10),
        Err(Error::NotFound)
    );
}

#[test]
fn get_pets_returns_all_or_not_found() {
    let mut store = new_store();
    let caller = String::from("alice");
    let (id0, _) = store.mint_pet(&caller, caller.clone(), 1);
    let (id1, _) = store.mint_pet(&caller, caller.clone(), 2);
    let pets = store.get_pets(&vec![id0.clone(), id1.clone()]).unwrap();
    assert_eq!(pets.len(), 2);
    assert_eq!(pets[0].pet_id, id0);
    assert_eq!(pets[1].pet_id, id1);
    assert_eq!(store.get_pets(&vec![]).unwrap().len(), 0);
    assert_eq!(
        store.get_pets(&vec![id0, String::from("PET_77")]),
        Err(Error::NotFound)
    );
}

#[test]
fn claim_of_quest_whose_pet_was_released_fails_not_found() {
    let mut store = new_store();
    let caller = String::from("alice");
    let (id, _) = store.mint_pet(&caller, caller.clone(), 1);
    store
        .send_pet_on_quest(&caller, &caller, &id, QuestType::TrialOfTitans, 100)
        .unwrap();
    store.release_pet(&caller, &caller, &id, 130).unwrap();
    assert_eq!(
        store.claim_quest_rewards(&caller, QuestType::TrialOfTitans, 131),
        Err(Error::NotFound)
    );
}
