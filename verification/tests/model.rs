use ship_lines::ship::{Armor, Class, Line, Ship, SortChoice, ValidLevel};

fn sample_ship(class: Class) -> Ship {
    Ship {
        id: "001".to_string(),
        name: "Alpha".to_string(),
        rarity: "SSR".to_string(),
        nation: "USS".to_string(),
        class,
        luck: 10,
        armor: Armor::Heavy,
        speed: 30,
        hp: 9000,
        firepower: 400,
        antiair: 200,
        torpedo: 0,
        evasion: 20,
        aviation: 0,
        cost: 15,
        reload: 150,
        antisubmarine: 0,
        oxygen: 0,
        ammunition: 0,
        accuracy: 120,
        image: "x".to_string(),
    }
}

#[test]
fn every_class_lands_in_its_line() {
    let back = [
        Class::BB,
        Class::BBV,
        Class::BC,
        Class::BM,
        Class::CV,
        Class::CVL,
        Class::AR,
        Class::AE,
    ];
    let front = [Class::CL, Class::CA, Class::CB, Class::DD];
    let sub = [
        Class::SS,
        Class::AM,
        Class::SSV,
        Class::IX,
        Class::IXs,
        Class::IXv,
        Class::IXm,
    ];
    for c in back {
        assert_eq!(c.line(), Line::Back);
    }
    for c in front {
        assert_eq!(c.line(), Line::Front);
    }
    for c in sub {
        assert_eq!(c.line(), Line::Sub);
    }
}

#[test]
fn armor_rank_follows_declaration_order() {
    assert!(Armor::Heavy.rank() < Armor::Medium.rank());
    assert!(Armor::Medium.rank() < Armor::Light.rank());
}

#[test]
fn all_sort_choices_listed_once() {
    let all = SortChoice::all();
    assert_eq!(all.len(), 14);
    assert_eq!(all[0], SortChoice::HP);
    assert_eq!(all[13], SortChoice::Accuracy);
    for (i, a) in all.iter().enumerate() {
        for (j, b) in all.iter().enumerate() {
            if i != j {
                assert_ne!(a, b);
            }
        }
    }
}

#[test]
fn stat_reads_the_chosen_attribute() {
    let s = sample_ship(Class::BB);
    assert_eq!(s.stat(SortChoice::HP), 9000);
    assert_eq!(s.stat(SortChoice::Luck), 10);
    assert_eq!(s.stat(SortChoice::Armor), 0);
    assert_eq!(s.stat(SortChoice::Accuracy), 120);
}

#[test]
fn class_labels_parse_back() {
    let labels = [
        "AE", "AM", "AR", "BB", "BBV", "BC", "BM", "CA", "CB", "CL", "CV", "CVL", "DD", "IX",
        "IXs", "IXv", "IXm", "SS", "SSV",
    ];
    for l in labels {
        assert!(Class::from_label(l).is_some());
    }
    assert_eq!(Class::from_label("BB"), Some(Class::BB));
    assert_eq!(Class::from_label("bb"), None);
    assert_eq!(Class::from_label(""), None);
}

#[test]
fn class_display_labels() {
    assert_eq!(Class::BC.label(), "BBC");
    assert_eq!(Class::IXs.label(), "IX");
    assert_eq!(Class::IXv.label(), "IX");
    assert_eq!(Class::IXm.label(), "IX");
    assert_eq!(Class::DD.label(), "DD");
}

#[test]
fn armor_labels_round_trip() {
    for a in [Armor::Heavy, Armor::Medium, Armor::Light] {
        assert_eq!(Armor::from_label(&a.label()), Some(a));
    }
    assert_eq!(Armor::from_label("Paper"), None);
}

#[test]
fn sort_choice_labels_round_trip() {
    for c in SortChoice::all() {
        assert_eq!(SortChoice::from_label(&c.label()), Some(c));
    }
    assert_eq!(SortChoice::from_label("Nonsense"), None);
}

#[test]
fn level_labels_and_numbers() {
    assert_eq!(ValidLevel::from_label("Level1"), Some(ValidLevel::Level1));
    assert_eq!(ValidLevel::from_label("Level100"), Some(ValidLevel::Level100));
    assert_eq!(ValidLevel::from_label("Level120"), Some(ValidLevel::Level120));
    assert_eq!(ValidLevel::from_label("Level125"), Some(ValidLevel::Level125));
    assert_eq!(ValidLevel::from_label("Level2"), None);
    assert_eq!(ValidLevel::Level1.number(), 1);
    assert_eq!(ValidLevel::Level100.number(), 100);
    assert_eq!(ValidLevel::Level120.number(), 120);
    assert_eq!(ValidLevel::Level125.number(), 125);
}

#[test]
fn ship_display_name_is_its_name() {
    let s = sample_ship(Class::CL);
    assert_eq!(s.display_name(), "Alpha");
}
