use crosszones::snapping::common::ScreenDimensions;
use crosszones::store::zone_layouts::{
    delete_zone_layout, get_zone_layout, save_zone_layout, Zone, ZoneLayout, FULL_EXTENT, UNITS_PER_PERCENT,
};

fn zone(id: &str, x: u32, y: u32, width: u32, height: u32, number: u32) -> Zone {
    Zone { id: id.to_string(), x, y, width, height, number }
}

fn layout(id: &str, name: &str) -> ZoneLayout {
    ZoneLayout { id: id.to_string(), name: name.to_string(), zones: vec![] }
}

fn ids(layouts: &Vec<ZoneLayout>) -> Vec<(String, String)> {
    layouts.iter().map(|l| (l.id.clone(), l.name.clone())).collect()
}

fn pair(a: &str, b: &str) -> (String, String) {
    (a.to_string(), b.to_string())
}

fn halves() -> ZoneLayout {
    ZoneLayout {
        id: "halves".to_string(),
        name: "Halves".to_string(),
        zones: vec![
            zone("left", 0, 0, 50_000_000, 100_000_000, 1),
            zone("right", 50_000_000, 0, 50_000_000, 100_000_000, 2),
        ],
    }
}

#[test]
fn a_percent_is_a_million_units() {
    assert_eq!(UNITS_PER_PERCENT, 1_000_000);
    assert_eq!(FULL_EXTENT, 100 * UNITS_PER_PERCENT);
}

#[test]
fn zone_numbered_finds_the_first_with_the_number() {
    let l = ZoneLayout {
        id: "l".to_string(),
        name: "n".to_string(),
        zones: vec![zone("a", 0, 0, 1, 1, 3), zone("b", 0, 0, 2, 2, 5), zone("c", 0, 0, 3, 3, 5)],
    };
    assert_eq!(l.zone_numbered(5).unwrap().id, "b");
    assert_eq!(l.zone_numbered(3).unwrap().id, "a");
    assert!(l.zone_numbered(4).is_none());
    assert!(layout("e", "e").zone_numbered(0).is_none());
}

#[test]
fn the_zone_under_a_point_is_the_one_whose_box_holds_it() {
    let screen = ScreenDimensions { x: 0, y: 0, width: 1920, height: 1080 };
    let l = halves();
    assert_eq!(l.get_zone_at_position(100, 100, screen).unwrap().id, "left");
    assert_eq!(l.get_zone_at_position(0, 0, screen).unwrap().id, "left");
    assert_eq!(l.get_zone_at_position(959, 1079, screen).unwrap().id, "left");
    assert_eq!(l.get_zone_at_position(960, 0, screen).unwrap().id, "right");
    assert_eq!(l.get_zone_at_position(1919, 1079, screen).unwrap().id, "right");
    assert!(l.get_zone_at_position(1920, 100, screen).is_none());
    assert!(l.get_zone_at_position(100, 1080, screen).is_none());
    assert!(l.get_zone_at_position(-1, 100, screen).is_none());
}

#[test]
fn zones_are_laid_over_the_screen_where_it_is() {
    let screen = ScreenDimensions { x: 1920, y: 200, width: 1000, height: 500 };
    let l = halves();
    assert!(l.get_zone_at_position(100, 300, screen).is_none());
    assert_eq!(l.get_zone_at_position(1920, 200, screen).unwrap().id, "left");
    assert_eq!(l.get_zone_at_position(2419, 699, screen).unwrap().id, "left");
    assert_eq!(l.get_zone_at_position(2420, 699, screen).unwrap().id, "right");
    assert!(l.get_zone_at_position(2420, 700, screen).is_none());
}

#[test]
fn of_overlapping_zones_the_first_is_under_the_point() {
    let screen = ScreenDimensions { x: 0, y: 0, width: 1000, height: 1000 };
    let l = ZoneLayout {
        id: "l".to_string(),
        name: "n".to_string(),
        zones: vec![
            zone("small", 40_000_000, 40_000_000, 20_000_000, 20_000_000, 1),
            zone("all", 0, 0, 100_000_000, 100_000_000, 2),
        ],
    };
    assert_eq!(l.get_zone_at_position(500, 500, screen).unwrap().id, "small");
    assert_eq!(l.get_zone_at_position(399, 500, screen).unwrap().id, "all");
}

#[test]
fn saving_a_new_layout_appends_it() {
    let mut layouts = vec![layout("a", "A")];
    save_zone_layout(&mut layouts, layout("b", "B"));
    assert_eq!(ids(&layouts), vec![pair("a", "A"), pair("b", "B")]);
}

#[test]
fn saving_a_known_layout_replaces_it_in_place() {
    let mut layouts = vec![layout("a", "A"), layout("b", "B"), layout("c", "C")];
    save_zone_layout(&mut layouts, layout("b", "B2"));
    assert_eq!(ids(&layouts), vec![pair("a", "A"), pair("b", "B2"), pair("c", "C")]);
}

#[test]
fn saving_replaces_only_the_first_of_equal_identifiers() {
    let mut layouts = vec![layout("a", "A"), layout("a", "second")];
    save_zone_layout(&mut layouts, layout("a", "new"));
    assert_eq!(ids(&layouts), vec![pair("a", "new"), pair("a", "second")]);
}

#[test]
fn saving_into_an_empty_list() {
    let mut layouts = vec![];
    save_zone_layout(&mut layouts, halves());
    assert_eq!(layouts.len(), 1);
    assert_eq!(layouts[0].zones.len(), 2);
}

#[test]
fn deleting_removes_every_layout_with_the_identifier() {
    let mut layouts = vec![layout("a", "A"), layout("b", "B"), layout("a", "A2"), layout("c", "C")];
    delete_zone_layout(&mut layouts, "a");
    assert_eq!(ids(&layouts), vec![pair("b", "B"), pair("c", "C")]);
}

#[test]
fn deleting_an_unknown_identifier_changes_nothing() {
    let mut layouts = vec![layout("a", "A"), layout("b", "B")];
    delete_zone_layout(&mut layouts, "x");
    assert_eq!(ids(&layouts), vec![pair("a", "A"), pair("b", "B")]);
    let mut none: Vec<ZoneLayout> = vec![];
    delete_zone_layout(&mut none, "x");
    assert!(none.is_empty());
}

#[test]
fn deleting_the_only_layout_leaves_none() {
    let mut layouts = vec![layout("a", "A"), layout("a", "B")];
    delete_zone_layout(&mut layouts, "a");
    assert!(layouts.is_empty());
}

#[test]
fn getting_a_layout_gives_the_first_with_the_identifier() {
    let layouts = vec![layout("a", "A"), layout("b", "B"), layout("b", "B2")];
    assert_eq!(get_zone_layout(layouts, "b").unwrap().name, "B");
    let layouts = vec![layout("a", "A")];
    assert!(get_zone_layout(layouts, "z").is_none());
    assert!(get_zone_layout(vec![], "a").is_none());
}
