use pet_quest::battle::BattleStatus;
use pet_quest::economy::TokenInstruction;
use pet_quest::error::Error;
use pet_quest::stats::PetStats;
use pet_quest::store::Store;

fn new_store() -> Store {
    Store::new(String::from("admin"), 20, String::from("test entropy"))
}

/// Counts the stat comparisons each side wins outright.
fn points(a: &PetStats, b: &PetStats) -> (u32, u32) {
    let mut first: u32 = 0;
    let mut second: u32 = 0;
    for (x, y) in [
        (a.strength, b.strength),
        (a.stamina, b.stamina),
        (a.intelligence, b.intelligence),
        (a.health, b.health),
        (a.luck, b.luck),
    ] {
        if x > y {
            first += 1;
        } else if y > x {
            second += 1;
        }
    }
    (first, second)
}

fn setup_two_pets(store: &mut Store) -> (String, String, String, String) {
    let alice = String::from("alice");
    let bob = String::from("bob");
    let (pet_a, _) = store.mint_pet(&alice, alice.clone(), 1);
    let (pet_b, _) = store.mint_pet(&bob, bob.clone(), 2);
    (alice, bob, pet_a, pet_b)
}

#[test]
fn propose_burns_wager_and_indexes_both_pets() {
    let mut store = new_store();
    let (alice, _bob, pet_a, pet_b) = setup_two_pets(&mut store);
    let r = store.battle_pet(&alice, &alice, 100, &pet_a, &pet_b, 10);
    assert_eq!(
        r,
        Ok((
            0,
            TokenInstruction::Burn {
                owner: alice.clone(),
                amount: 10
            }
        ))
    );
    assert_eq!(store.battle_counter, 1);
    let battle = store.get_battle(0).expect("stored");
    assert_eq!(battle.id, 0);
    assert_eq!(battle.initiator_address, alice);
    assert_eq!(battle.pet_id, pet_a);
    assert_eq!(battle.other_pet_id, pet_b);
    assert_eq!(battle.wager, 10);
    assert_eq!(battle.status, BattleStatus::Pending);
    assert_eq!(battle.outcome, None);
    assert_eq!(store.get_pet_battles(&pet_a), vec![0]);
    assert_eq!(store.get_pet_battles(&pet_b), vec![0]);
}

#[test]
fn propose_rejects_wrong_owner_and_low_balance() {
    let mut store = new_store();
    let (alice, bob, pet_a, pet_b) = setup_two_pets(&mut store);
    assert_eq!(
        store.battle_pet(&alice, &bob, 100, &pet_a, &pet_b, 10),
        Err(Error::Unauthorized)
    );
    assert_eq!(
        store.battle_pet(&alice, &alice, 5, &pet_a, &pet_b, 10),
        Err(Error::InsufficientFunds)
    );
    assert_eq!(store.battle_counter, 0);
}

#[test]
fn accept_burns_wager_and_resolves() {
    let mut store = new_store();
    let (alice, bob, pet_a, pet_b) = setup_two_pets(&mut store);
    store
        .battle_pet(&alice, &alice, 100, &pet_a, &pet_b, 10)
        .unwrap();
    let r = store.accept_battle(&bob, &bob, 100, 0);
    assert_eq!(
        r,
        Ok(TokenInstruction::Burn {
            owner: bob.clone(),
            amount: 10
        })
    );
    let battle = store.get_battle(0).unwrap();
    assert_eq!(battle.status, BattleStatus::Accepted);
    let a = store.get_pet(&pet_a).unwrap();
    let b = store.get_pet(&pet_b).unwrap();
    let (first, second) = points(&a.current, &b.current);
    assert_eq!(battle.outcome, Some(first > second));
}

#[test]
fn accept_rejects_unknown_wrong_owner_resolved_and_low_balance() {
    let mut store = new_store();
    let (alice, bob, pet_a, pet_b) = setup_two_pets(&mut store);
    assert_eq!(
        store.accept_battle(&bob, &bob, 100, 7),
        Err(Error::NotFound)
    );
    store
        .battle_pet(&alice, &alice, 100, &pet_a, &pet_b, 10)
        .unwrap();
    assert_eq!(
        store.accept_battle(&bob, &alice, 100, 0),
        Err(Error::Unauthorized)
    );
    assert_eq!(
        store.accept_battle(&bob, &bob, 5, 0),
        Err(Error::InsufficientFunds)
    );
    store.accept_battle(&bob, &bob, 100, 0).unwrap();
    assert_eq!(
        store.accept_battle(&bob, &bob, 100, 0),
        Err(Error::InvalidState)
    );
}

#[test]
fn decline_refunds_exactly_the_wager_and_clears_indices() {
    let mut store = new_store();
    let (alice, bob, pet_a, pet_b) = setup_two_pets(&mut store);
    store
        .battle_pet(&alice, &alice, 100, &pet_a, &pet_b, 25)
        .unwrap();
    let r = store.decline_battle(&bob, &bob, 0);
    assert_eq!(
        r,
        Ok(TokenInstruction::Mint {
            recipient: alice.clone(),
            amount: 25
        })
    );
    assert!(store.get_battle(0).is_none());
    assert_eq!(store.get_pet_battles(&pet_a), Vec::<u64>::new());
    assert_eq!(store.get_pet_battles(&pet_b), Vec::<u64>::new());
}

#[test]
fn cancel_refunds_the_initiator_too() {
    let mut store = new_store();
    let (alice, bob, pet_a, pet_b) = setup_two_pets(&mut store);
    store
        .battle_pet(&alice, &alice, 100, &pet_a, &pet_b, 30)
        .unwrap();
    // Only the initiator's side may cancel.
    assert_eq!(
        store.cancel_battle(&bob, &alice, 0),
        Err(Error::Unauthorized)
    );
    let r = store.cancel_battle(&alice, &alice, 0);
    assert_eq!(
        r,
        Ok(TokenInstruction::Mint {
            recipient: alice.clone(),
            amount: 30
        })
    );
    assert!(store.get_battle(0).is_none());
    assert_eq!(store.get_pet_battles(&pet_a), Vec::<u64>::new());
    assert_eq!(store.get_pet_battles(&pet_b), Vec::<u64>::new());
}

#[test]
fn decline_rejects_unknown_battle_and_wrong_owner() {
    let mut store = new_store();
    let (alice, bob, pet_a, pet_b) = setup_two_pets(&mut store);
    assert_eq!(store.decline_battle(&bob, &bob, 3), Err(Error::NotFound));
    store
        .battle_pet(&alice, &alice, 100, &pet_a, &pet_b, 10)
        .unwrap();
    // The registry reports bob as the challenged pet's owner, so alice
    // cannot decline.
    assert_eq!(
        store.decline_battle(&alice, &bob, 0),
        Err(Error::Unauthorized)
    );
    assert!(store.get_battle(0).is_some());
}

#[test]
fn decline_of_accepted_battle_fails() {
    let mut store = new_store();
    let (alice, bob, pet_a, pet_b) = setup_two_pets(&mut store);
    store
        .battle_pet(&alice, &alice, 100, &pet_a, &pet_b, 10)
        .unwrap();
    store.accept_battle(&bob, &bob, 100, 0).unwrap();
    assert_eq!(store.decline_battle(&bob, &bob, 0), Err(Error::InvalidState));
    assert_eq!(
        store.cancel_battle(&alice, &alice, 0),
        Err(Error::InvalidState)
    );
    assert!(store.get_battle(0).is_some());
}

#[test]
fn claim_pays_double_to_the_winner_and_nothing_to_the_loser() {
    let mut store = new_store();
    let (alice, bob, pet_a, pet_b) = setup_two_pets(&mut store);
    store
        .battle_pet(&alice, &alice, 100, &pet_a, &pet_b, 10)
        .unwrap();
    store.accept_battle(&bob, &bob, 100, 0).unwrap();
    let battle = store.get_battle(0).unwrap();
    let first_won = battle.outcome.unwrap();
    let (winner, winner_pet, loser, loser_pet) = if first_won {
        (alice.clone(), pet_a.clone(), bob.clone(), pet_b.clone())
    } else {
        (bob.clone(), pet_b.clone(), alice.clone(), pet_a.clone())
    };

    let r = store.claim_battle(&winner, &winner, 0, &winner_pet);
    assert_eq!(
        r,
        Ok(Some(TokenInstruction::Mint {
            recipient: winner.clone(),
            amount: 20
        }))
    );
    assert_eq!(store.get_pet_battles(&winner_pet), Vec::<u64>::new());
    // The loser's index still holds the battle until the loser claims.
    assert_eq!(store.get_pet_battles(&loser_pet), vec![0]);

    let r = store.claim_battle(&loser, &loser, 0, &loser_pet);
    assert_eq!(r, Ok(None));
    assert_eq!(store.get_pet_battles(&loser_pet), Vec::<u64>::new());
    // The record itself stays as an audit trail.
    assert!(store.get_battle(0).is_some());
}

#[test]
fn claim_of_unresolved_battle_fails() {
    let mut store = new_store();
    let (alice, _bob, pet_a, pet_b) = setup_two_pets(&mut store);
    store
        .battle_pet(&alice, &alice, 100, &pet_a, &pet_b, 10)
        .unwrap();
    assert_eq!(
        store.claim_battle(&alice, &alice, 0, &pet_a),
        Err(Error::InvalidState)
    );
}

#[test]
fn my_battles_lists_each_side() {
    let mut store = new_store();
    let (alice, bob, pet_a, pet_b) = setup_two_pets(&mut store);
    store
        .battle_pet(&alice, &alice, 100, &pet_a, &pet_b, 10)
        .unwrap();
    store.accept_battle(&bob, &bob, 100, 0).unwrap();
    let battles = store.my_battles(&vec![pet_a.clone()]);
    assert_eq!(battles.len(), 1);
    assert_eq!(battles[0].id, 0);
    assert_eq!(battles[0].pet_id, pet_a);
    assert_eq!(battles[0].other_pet_id, pet_b);
    assert_eq!(battles[0].status, BattleStatus::Accepted);
    // Both pets see the same battle.
    let both = store.my_battles(&vec![pet_a.clone(), pet_b.clone()]);
    assert_eq!(both.len(), 2);
    assert_eq!(store.my_battles(&vec![]).len(), 0);
}
