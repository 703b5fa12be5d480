use pet_quest::stats::{PetStats, Stat};

#[test]
fn new_sets_all_fields() {
    let s = PetStats::new(1, 2, 3, 4, 5);
    assert_eq!(s.health, 1);
    assert_eq!(s.strength, 2);
    assert_eq!(s.stamina, 3);
    assert_eq!(s.intelligence, 4);
    assert_eq!(s.luck, 5);
}

#[test]
fn get_stat_reads_each_field() {
    let s = PetStats::new(10, 20, 30, 40, 50);
    assert_eq!(s.get_stat(Stat::Health), 10);
    assert_eq!(s.get_stat(Stat::Strength), 20);
    assert_eq!(s.get_stat(Stat::Stamina), 30);
    assert_eq!(s.get_stat(Stat::Intelligence), 40);
    assert_eq!(s.get_stat(Stat::Luck), 50);
}

#[test]
fn set_stat_writes_only_the_given_field() {
    let mut s = PetStats::new(1, 1, 1, 1, 1);
    s.set_stat(Stat::Stamina, 9);
    assert_eq!(s, PetStats::new(1, 1, 9, 1, 1));
    s.set_stat(Stat::Luck, 7);
    assert_eq!(s, PetStats::new(1, 1, 9, 1, 7));
}

#[test]
fn stat_from_string_parses_each_name() {
    assert_eq!(Stat::from_string(String::from("Health")), Stat::Health);
    assert_eq!(Stat::from_string(String::from("Strength")), Stat::Strength);
    assert_eq!(Stat::from_string(String::from("Stamina")), Stat::Stamina);
    assert_eq!(
        Stat::from_string(String::from("Intelligence")),
        Stat::Intelligence
    );
    assert_eq!(Stat::from_string(String::from("Luck")), Stat::Luck);
}

#[test]
fn stat_from_string_defaults_to_health() {
    assert_eq!(Stat::from_string(String::from("Charm")), Stat::Health);
    assert_eq!(Stat::from_string(String::from("")), Stat::Health);
    assert_eq!(Stat::from_string(String::from("health")), Stat::Health);
}
