use ship_lines::ship::{Armor, Class, Ship, SortChoice};
use ship_lines::sort::sort_ships;

fn ship(id: &str, armor: Armor, hp: u32, luck: u32) -> Ship {
    Ship {
        id: id.to_string(),
        name: format!("Unit {}", id),
        rarity: "SSR".to_string(),
        nation: "USS".to_string(),
        class: Class::DD,
        luck,
        armor,
        speed: 30,
        hp,
        firepower: 400,
        antiair: 200,
        torpedo: 0,
        evasion: 20,
        aviation: 0,
        cost: 15,
        reload: 150,
        antisubmarine: 0,
        oxygen: 0,
        ammunition: 0,
        accuracy: 120,
        image: "x".to_string(),
    }
}

#[test]
fn sort_is_descending_by_the_chosen_attribute() {
    let mut line = vec![
        ship("1", Armor::Light, 100, 3),
        ship("2", Armor::Light, 900, 1),
        ship("3", Armor::Light, 500, 2),
    ];
    sort_ships(&mut line, SortChoice::HP);
    assert_eq!(line[0].hp, 900);
    assert_eq!(line[1].hp, 500);
    assert_eq!(line[2].hp, 100);
    sort_ships(&mut line, SortChoice::Luck);
    assert_eq!(line[0].luck, 3);
    assert_eq!(line[1].luck, 2);
    assert_eq!(line[2].luck, 1);
}

#[test]
fn sort_is_stable_on_equal_keys() {
    let mut line = vec![
        ship("a", Armor::Light, 500, 0),
        ship("b", Armor::Light, 900, 0),
        ship("c", Armor::Light, 500, 0),
        ship("d", Armor::Light, 500, 0),
        ship("e", Armor::Light, 100, 0),
    ];
    sort_ships(&mut line, SortChoice::HP);
    let ids: Vec<&str> = line.iter().map(|s| s.id.as_str()).collect();
    // equal-hp records a, c, d keep their input order
    assert_eq!(ids, ["b", "a", "c", "d", "e"]);
}

#[test]
fn armor_sorts_by_declaration_ordinal_descending() {
    let mut line = vec![
        ship("h", Armor::Heavy, 100, 0),
        ship("l", Armor::Light, 100, 0),
        ship("m", Armor::Medium, 100, 0),
    ];
    sort_ships(&mut line, SortChoice::Armor);
    assert_eq!(line[0].armor, Armor::Light);
    assert_eq!(line[1].armor, Armor::Medium);
    assert_eq!(line[2].armor, Armor::Heavy);
}

#[test]
fn sorting_an_empty_or_single_line_is_a_no_op() {
    let mut empty: Vec<Ship> = Vec::new();
    sort_ships(&mut empty, SortChoice::HP);
    assert!(empty.is_empty());
    let one = ship("1", Armor::Light, 700, 0);
    let mut single = vec![one.clone()];
    sort_ships(&mut single, SortChoice::HP);
    assert_eq!(single, vec![one]);
}

#[test]
fn sort_keeps_every_record() {
    let mut line = vec![
        ship("1", Armor::Light, 4, 0),
        ship("2", Armor::Light, 2, 0),
        ship("3", Armor::Light, 4, 0),
        ship("4", Armor::Light, 9, 0),
    ];
    let before = line.clone();
    sort_ships(&mut line, SortChoice::HP);
    assert_eq!(line.len(), before.len());
    for s in &before {
        assert_eq!(
            line.iter().filter(|x| *x == s).count(),
            before.iter().filter(|x| *x == s).count()
        );
    }
}
