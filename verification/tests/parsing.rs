use ship_lines::parse::{build_image_url, parse_table, ScrapeError, GROUP_CELLS, HEADER_CELLS};
use ship_lines::ship::{Armor, Class};
use ship_lines::text::parse_cell;

fn cells(v: &[&str]) -> Vec<String> {
    v.iter().map(|s| s.to_string()).collect()
}

const HEADER: [&str; 5] = ["ID", "Name", "Rarity", "Nation", "Type"];

fn group(id: &str, name: &str, class: &str, armor: &str, hp: &str) -> Vec<String> {
    // id, name, rarity, nation, class, luck, armor, speed, hp, firepower,
    // antiair, torpedo, evasion, aviation, cost, reload, antisubmarine,
    // oxygen, ammunition, accuracy
    cells(&[
        id, name, "SSR", "USS", class, "10", armor, "30", hp, "400", "200", "0", "20", "0", "15",
        "150", "0", "0", "0", "120",
    ])
}

fn table(groups: &[Vec<String>]) -> Vec<String> {
    let mut v = cells(&HEADER);
    for g in groups {
        v.extend_from_slice(g);
    }
    v
}

#[test]
fn group_width_matches_fields_consumed() {
    // one group of exactly GROUP_CELLS cells yields one fully populated record
    assert_eq!(GROUP_CELLS, 20);
    assert_eq!(HEADER_CELLS, 5);
    let t = table(&[group("007", "Alpha", "BB", "Heavy", "9000")]);
    assert_eq!(t.len(), HEADER_CELLS + GROUP_CELLS);
    let ships = parse_table(&t).unwrap();
    assert_eq!(ships.len(), 1);
    let s = &ships[0];
    assert_eq!(s.id, "007");
    assert_eq!(s.name, "Alpha");
    assert_eq!(s.rarity, "SSR");
    assert_eq!(s.nation, "USS");
    assert_eq!(s.class, Class::BB);
    assert_eq!(s.luck, 10);
    assert_eq!(s.armor, Armor::Heavy);
    assert_eq!(s.speed, 30);
    assert_eq!(s.hp, 9000);
    assert_eq!(s.firepower, 400);
    assert_eq!(s.antiair, 200);
    assert_eq!(s.torpedo, 0);
    assert_eq!(s.evasion, 20);
    assert_eq!(s.aviation, 0);
    assert_eq!(s.cost, 15);
    assert_eq!(s.reload, 150);
    assert_eq!(s.antisubmarine, 0);
    assert_eq!(s.oxygen, 0);
    assert_eq!(s.ammunition, 0);
    assert_eq!(s.accuracy, 120);
}

#[test]
fn partial_trailing_group_is_dropped() {
    // 5 header cells + one complete group + 7 stray cells: parsing stops
    // cleanly after the complete group
    let mut t = table(&[group("001", "Alpha", "BB", "Heavy", "9000")]);
    for extra in ["002", "Beta", "SR", "HMS", "DD", "5", "Light"] {
        t.push(extra.to_string());
    }
    let ships = parse_table(&t).unwrap();
    assert_eq!(ships.len(), 1);
    assert_eq!(ships[0].name, "Alpha");
}

#[test]
fn too_few_data_cells_yield_no_records() {
    let mut t = cells(&HEADER);
    t.push("only".to_string());
    let ships = parse_table(&t).unwrap();
    assert_eq!(ships.len(), 0);
}

#[test]
fn missing_header_is_an_error() {
    let t = cells(&["ID", "Name", "Rarity"]);
    assert_eq!(parse_table(&t), Err(ScrapeError::MissingHeader));
}

#[test]
fn unknown_class_aborts_the_parse() {
    let t = table(&[group("001", "Alpha", "XX", "Heavy", "9000")]);
    assert_eq!(parse_table(&t), Err(ScrapeError::UnknownClass));
}

#[test]
fn unknown_armor_aborts_the_parse() {
    let t = table(&[group("001", "Alpha", "BB", "Paper", "9000")]);
    assert_eq!(parse_table(&t), Err(ScrapeError::UnknownArmor));
}

#[test]
fn failure_is_fail_fast_at_the_first_bad_group() {
    let t = table(&[
        group("001", "Alpha", "XX", "Heavy", "9000"),
        group("002", "Beta", "DD", "Paper", "100"),
    ]);
    assert_eq!(parse_table(&t), Err(ScrapeError::UnknownClass));
}

#[test]
fn non_numeric_cell_defaults_to_zero() {
    let t = table(&[group("001", "Alpha", "BB", "Heavy", "lots")]);
    let ships = parse_table(&t).unwrap();
    assert_eq!(ships[0].hp, 0);
    // the other fields still parse
    assert_eq!(ships[0].luck, 10);
}

#[test]
fn parse_cell_values() {
    assert_eq!(parse_cell("123"), 123);
    assert_eq!(parse_cell("0"), 0);
    assert_eq!(parse_cell("0123"), 123);
    assert_eq!(parse_cell(""), 0);
    assert_eq!(parse_cell("12a"), 0);
    assert_eq!(parse_cell(" 5"), 0);
    assert_eq!(parse_cell("4294967295"), 4294967295);
    assert_eq!(parse_cell("4294967296"), 0);
    assert_eq!(parse_cell("99999999999999999999"), 0);
}

#[test]
fn parse_cell_sign_handling() {
    // one leading '+' is part of a valid numeral, as the source data writes it
    assert_eq!(parse_cell("+1"), 1);
    assert_eq!(parse_cell("+0123"), 123);
    // a bare or repeated sign is not a numeral
    assert_eq!(parse_cell("+"), 0);
    assert_eq!(parse_cell("++1"), 0);
    // a negative value has no place in the non-negative attribute domain
    assert_eq!(parse_cell("-5"), 0);
}

#[test]
fn signed_cell_parses_in_a_record() {
    let t = table(&[group("001", "Alpha", "BB", "Heavy", "+9000")]);
    let ships = parse_table(&t).unwrap();
    assert_eq!(ships[0].hp, 9000);
}

#[test]
fn image_reference_is_synthesized_from_the_name() {
    assert_eq!(
        build_image_url("Alpha"),
        "https://azurlane.koumakan.jp/wiki/File:AlphaIcon.png"
    );
    assert_eq!(
        build_image_url("New Jersey"),
        "https://azurlane.koumakan.jp/wiki/File:New_JerseyIcon.png"
    );
    assert_eq!(
        build_image_url("Alpha (Retrofit)"),
        "https://azurlane.koumakan.jp/wiki/File:AlphaKaiIcon.png"
    );
}

#[test]
fn parsed_record_carries_the_image_reference() {
    let t = table(&[group("001", "San Diego (Retrofit)", "CL", "Light", "800")]);
    let ships = parse_table(&t).unwrap();
    assert_eq!(
        ships[0].image,
        "https://azurlane.koumakan.jp/wiki/File:San_DiegoKaiIcon.png"
    );
}
