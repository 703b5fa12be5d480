use pet_quest::battle::battle_pets;
use pet_quest::stats::PetStats;

#[test]
fn first_pet_wins_three_of_five() {
    // A takes strength, health and stamina; B takes intelligence and luck.
    let a = PetStats::new(7, 10, 7, 5, 5);
    let b = PetStats::new(6, 6, 6, 6, 6);
    assert!(battle_pets(&a, &b));
    assert!(!battle_pets(&b, &a));
}

#[test]
fn full_tie_favors_the_second_pet() {
    let a = PetStats::new(6, 6, 6, 6, 6);
    let b = PetStats::new(6, 6, 6, 6, 6);
    assert!(!battle_pets(&a, &b));
}

#[test]
fn two_two_with_one_tie_is_no_win() {
    // A takes strength and health, B takes stamina and intelligence,
    // luck ties: neither side has strictly more points.
    let a = PetStats::new(9, 9, 1, 1, 5);
    let b = PetStats::new(1, 1, 9, 9, 5);
    assert!(!battle_pets(&a, &b));
    assert!(!battle_pets(&b, &a));
}

#[test]
fn one_stat_edge_decides_when_all_else_ties() {
    let a = PetStats::new(6, 7, 6, 6, 6);
    let b = PetStats::new(6, 6, 6, 6, 6);
    assert!(battle_pets(&a, &b));
    assert!(!battle_pets(&b, &a));
}
