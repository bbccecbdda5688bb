use ship_lines::lines::{find_line, ShipMap};
use ship_lines::parse::parse_table;
use ship_lines::scrape::scrape_document;
use ship_lines::ship::{Class, SortChoice};
use ship_lines::sort::sort_ships;

fn cells(v: &[&str]) -> Vec<String> {
    v.iter().map(|s| s.to_string()).collect()
}

fn group(id: &str, name: &str, class: &str, armor: &str, hp: &str) -> Vec<String> {
    cells(&[
        id, name, "SSR", "USS", class, "10", armor, "30", hp, "400", "200", "0", "20", "0", "15",
        "150", "0", "0", "0", "120",
    ])
}

#[test]
fn synthetic_table_parses_partitions_and_sorts() {
    // 5 header cells + two 20-cell groups: one BB, one DD
    let mut t = cells(&["ID", "Name", "Rarity", "Nation", "Type"]);
    t.extend_from_slice(&group("001", "Alpha", "BB", "Heavy", "9000"));
    t.extend_from_slice(&group("002", "Beta", "DD", "Light", "1800"));
    assert_eq!(t.len(), 45);
    let ships = parse_table(&t).unwrap();
    assert_eq!(ships.len(), 2);

    let map = ShipMap::import(ships);
    let (mut back, front, sub) = find_line(&map);
    assert_eq!(back.len(), 1);
    assert_eq!(back[0].class, Class::BB);
    assert_eq!(front.len(), 1);
    assert_eq!(front[0].class, Class::DD);
    assert!(sub.is_empty());

    let back_before = back.clone();
    sort_ships(&mut back, SortChoice::HP);
    assert_eq!(back, back_before);
}

#[test]
fn empty_persisted_collection_round_trips_through_empty_lines() {
    let map = ShipMap::import(Vec::new());
    let (back, front, sub) = find_line(&map);
    assert!(back.is_empty());
    assert!(front.is_empty());
    assert!(sub.is_empty());
    let exported = map.export();
    assert!(exported.is_empty());
}

fn row(cells_text: &[&str], tag: &str) -> String {
    let mut r = String::from("<tr>");
    for c in cells_text {
        r.push_str(&format!("<{tag}>{c}</{tag}>"));
    }
    r.push_str("</tr>");
    r
}

fn article_with_table(groups: &[Vec<String>]) -> String {
    let mut html = String::from("<article><table><tbody>");
    html.push_str(&row(&["ID", "Name", "Rarity", "Nation", "Type"], "th"));
    for g in groups {
        let refs: Vec<&str> = g.iter().map(|s| s.as_str()).collect();
        html.push_str(&row(&refs, "td"));
    }
    html.push_str("</tbody></table></article>");
    html
}

#[test]
fn scraping_a_document_extracts_and_parses_its_table() {
    let body = article_with_table(&[
        group("001", "Alpha", "BB", "Heavy", "9000"),
        group("002", "Beta", "DD", "Light", "1800"),
    ]);
    let html = format!("<html><body>{body}</body></html>");
    let map = scrape_document(&html, 1).unwrap();
    assert_eq!(map.len(), 2);
    assert_eq!(map.get(0).unwrap().name, "Alpha");
    assert_eq!(map.get(0).unwrap().class, Class::BB);
    assert_eq!(map.get(1).unwrap().name, "Beta");
    assert_eq!(map.get(1).unwrap().hp, 1800);
}

#[test]
fn level_selects_its_table_section_and_unknown_levels_fall_back() {
    let first = article_with_table(&[group("001", "Alpha", "BB", "Heavy", "9000")]);
    let second = article_with_table(&[
        group("101", "Gamma", "SS", "Light", "2000"),
        group("102", "Delta", "CL", "Light", "3000"),
    ]);
    let html = format!("<html><body>{first}{second}</body></html>");
    let at_one = scrape_document(&html, 1).unwrap();
    assert_eq!(at_one.len(), 1);
    assert_eq!(at_one.get(0).unwrap().name, "Alpha");
    let at_hundred = scrape_document(&html, 100).unwrap();
    assert_eq!(at_hundred.len(), 2);
    assert_eq!(at_hundred.get(0).unwrap().name, "Gamma");
    // an unrecognized level silently falls back to the first section
    let fallback = scrape_document(&html, 42).unwrap();
    assert_eq!(fallback.len(), 1);
    assert_eq!(fallback.get(0).unwrap().name, "Alpha");
}

#[test]
fn a_document_without_matching_tables_yields_an_empty_collection() {
    let html = "<html><body><p>nothing here</p></body></html>";
    let map = scrape_document(html, 1).unwrap();
    assert_eq!(map.len(), 0);
}

#[test]
fn a_bad_enum_cell_aborts_the_whole_scrape() {
    let body = article_with_table(&[group("001", "Alpha", "QQ", "Heavy", "9000")]);
    let html = format!("<html><body>{body}</body></html>");
    assert!(scrape_document(&html, 1).is_err());
}
