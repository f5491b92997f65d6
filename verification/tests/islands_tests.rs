use radiooooo_cli::islands::{
    Island, Modified, find_island_index, island_label, island_labels, island_modified_timestamp,
    sort_islands_by_modified,
};

fn island(id: &str, name: &str, category: Option<&str>, date: Option<&str>) -> Island {
    Island {
        id: id.to_string(),
        name: name.to_string(),
        category: category.map(|c| c.to_string()),
        modified: date.map(|d| Modified { date: d.to_string() }),
    }
}

fn ids(islands: &[Island]) -> Vec<String> {
    islands.iter().map(|i| i.id.clone()).collect()
}

#[test]
fn sort_falls_by_modification_date() {
    let input = vec![
        island("a", "A", None, Some("2020-05-01T00:00:00Z")),
        island("b", "B", None, Some("2021-01-01T00:00:00Z")),
        island("c", "C", None, Some("2019-12-31T23:59:59Z")),
    ];
    let sorted = sort_islands_by_modified(input);
    assert_eq!(ids(&sorted), vec!["b", "a", "c"]);
}

#[test]
fn unparsable_dates_sort_after_all_parsable_in_input_order() {
    let input = vec![
        island("bad1", "B1", None, Some("not a date")),
        island("old", "O", None, Some("1971-01-01T00:00:00Z")),
        island("none1", "N1", None, None),
        island("new", "N", None, Some("2022-01-01T00:00:00Z")),
        island("bad2", "B2", None, Some("also wrong")),
    ];
    let sorted = sort_islands_by_modified(input);
    assert_eq!(ids(&sorted), vec!["new", "old", "bad1", "none1", "bad2"]);
}

#[test]
fn equal_dates_keep_input_order() {
    let input = vec![
        island("x", "X", None, Some("2020-01-01T00:00:00Z")),
        island("y", "Y", None, Some("2020-01-01T00:00:00Z")),
        island("z", "Z", None, Some("2020-01-01T01:00:00+01:00")),
    ];
    let sorted = sort_islands_by_modified(input);
    assert_eq!(ids(&sorted), vec!["x", "y", "z"]);
}

#[test]
fn timestamps_parse_to_epoch_instants() {
    let one = island("i", "I", None, Some("1970-01-01T00:00:01Z"));
    assert_eq!(island_modified_timestamp(&one), Some((1, 0)));

    let offset = island("j", "J", None, Some("1970-01-01T01:00:00+01:00"));
    assert_eq!(island_modified_timestamp(&offset), Some((0, 0)));

    let bad = island("k", "K", None, Some("yesterday"));
    assert_eq!(island_modified_timestamp(&bad), None);

    let absent = island("l", "L", None, None);
    assert_eq!(island_modified_timestamp(&absent), None);
}

#[test]
fn labels_show_name_and_category() {
    let with = island("a", "Bossa", Some("jazz"), None);
    let without = island("b", "Chill", None, None);
    assert_eq!(island_label(&with), "Bossa [jazz]");
    assert_eq!(island_label(&without), "Chill [other]");

    let labels = island_labels(&vec![with, without]);
    assert_eq!(labels, vec!["Bossa [jazz]", "Chill [other]"]);
}

#[test]
fn chosen_label_maps_back_to_first_matching_island() {
    let islands = vec![
        island("a", "Bossa", Some("jazz"), None),
        island("b", "Chill", None, None),
    ];
    assert_eq!(find_island_index(&islands, "Chill [other]"), Some(1));
    assert_eq!(find_island_index(&islands, "Bossa [jazz]"), Some(0));
    assert_eq!(find_island_index(&islands, "Missing [other]"), None);
}
