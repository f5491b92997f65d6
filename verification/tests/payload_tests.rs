use radiooooo_cli::islands::Island;
use radiooooo_cli::payload::{request_payload, request_url};
use radiooooo_cli::selection::{Mode, Selection};

fn strings(items: &[&str]) -> Vec<String> {
    items.iter().map(|s| s.to_string()).collect()
}

#[test]
fn explore_payload_full_filters() {
    let sel = Selection {
        mode: Mode::Explore,
        decades: strings(&["1960", "1980"]),
        moods: strings(&["SLOW", "FAST"]),
        countries: strings(&["FRA", "ITA"]),
        island: None,
    };
    assert_eq!(
        request_payload(&sel),
        "{\"mode\":\"explore\",\"moods\":[\"SLOW\",\"FAST\"],\"decades\":[\"1960\",\"1980\"],\"isocodes\":[\"FRA\",\"ITA\"]}"
    );
}

#[test]
fn explore_payload_empty_filters_are_sent_empty() {
    let sel = Selection {
        mode: Mode::Explore,
        decades: Vec::new(),
        moods: strings(&["SLOW", "FAST", "WEIRD"]),
        countries: Vec::new(),
        island: None,
    };
    assert_eq!(
        request_payload(&sel),
        "{\"mode\":\"explore\",\"moods\":[\"SLOW\",\"FAST\",\"WEIRD\"],\"decades\":[],\"isocodes\":[]}"
    );
}

#[test]
fn taxi_payload_keeps_filter_lists() {
    let sel = Selection {
        mode: Mode::Taxi,
        decades: strings(&["2000"]),
        moods: strings(&["WEIRD"]),
        countries: strings(&["JPN"]),
        island: None,
    };
    assert_eq!(
        request_payload(&sel),
        "{\"mode\":\"taxi\",\"moods\":[\"WEIRD\"],\"decades\":[\"2000\"],\"isocodes\":[\"JPN\"]}"
    );
}

#[test]
fn islands_payload_names_island_and_omits_filters() {
    let sel = Selection {
        mode: Mode::Islands,
        decades: strings(&["1990"]),
        countries: strings(&["FRA"]),
        moods: strings(&["SLOW"]),
        island: Some(Island {
            id: "isl42".to_string(),
            name: "Jazz Island".to_string(),
            category: None,
            modified: None,
        }),
    };
    let payload = request_payload(&sel);
    assert_eq!(payload, "{\"mode\":\"islands\",\"island\":\"isl42\",\"moods\":[\"SLOW\"]}");
    assert!(!payload.contains("decades"));
    assert!(!payload.contains("isocodes"));
}

#[test]
fn random_payload_carries_mode_and_moods_alone() {
    let sel = Selection {
        mode: Mode::Random,
        decades: Vec::new(),
        moods: strings(&["SLOW", "FAST", "WEIRD"]),
        countries: Vec::new(),
        island: None,
    };
    assert_eq!(
        request_payload(&sel),
        "{\"mode\":\"random\",\"moods\":[\"SLOW\",\"FAST\",\"WEIRD\"]}"
    );
}

#[test]
fn shuffle_payload_carries_mode_and_moods_alone() {
    let sel = Selection {
        mode: Mode::Shuffle,
        decades: Vec::new(),
        moods: strings(&["FAST"]),
        countries: Vec::new(),
        island: None,
    };
    assert_eq!(request_payload(&sel), "{\"mode\":\"shuffle\",\"moods\":[\"FAST\"]}");
}

#[test]
fn payload_escapes_json_characters() {
    let sel = Selection {
        mode: Mode::Shuffle,
        decades: Vec::new(),
        moods: strings(&["A\"B", "C\\D", "E\nF", "G\u{1}H"]),
        countries: Vec::new(),
        island: None,
    };
    assert_eq!(
        request_payload(&sel),
        "{\"mode\":\"shuffle\",\"moods\":[\"A\\\"B\",\"C\\\\D\",\"E\\nF\",\"G\\u0001H\"]}"
    );
}

#[test]
fn random_mode_posts_to_random_subpath() {
    assert_eq!(request_url(Mode::Random), "https://radiooooo.com/play/random");
    assert_eq!(request_url(Mode::Explore), "https://radiooooo.com/play");
    assert_eq!(request_url(Mode::Islands), "https://radiooooo.com/play");
    assert_eq!(request_url(Mode::Taxi), "https://radiooooo.com/play");
    assert_eq!(request_url(Mode::Shuffle), "https://radiooooo.com/play");
}
