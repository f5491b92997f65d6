use radiooooo_cli::cli::{Cli, LogLevel, direct_requested, direct_selection, split_commas_upper};
use radiooooo_cli::islands::Island;
use radiooooo_cli::selection::{
    Mode, assemble_selection, country_options, decade_options, default_moods, mode_name,
    mode_of_name, mode_options, mode_uses_filters, mood_options, normalize_moods,
};
use radiooooo_cli::text::{split_commas, to_upper};

fn bare_cli() -> Cli {
    Cli {
        mode: "explore".to_string(),
        decades: None,
        moods: None,
        countries: None,
        player: "mpv".to_string(),
        random: false,
        verbose: 0,
    }
}

#[test]
fn verbosity_maps_to_log_levels() {
    let mut cli = bare_cli();
    assert_eq!(cli.log_level(), LogLevel::Warn);
    cli.verbose = 1;
    assert_eq!(cli.log_level(), LogLevel::Info);
    cli.verbose = 2;
    assert_eq!(cli.log_level(), LogLevel::Debug);
    cli.verbose = 3;
    assert_eq!(cli.log_level(), LogLevel::Trace);
    cli.verbose = 9;
    assert_eq!(cli.log_level(), LogLevel::Trace);
}

#[test]
fn mode_names_round_trip() {
    for mode in [Mode::Explore, Mode::Islands, Mode::Taxi, Mode::Random, Mode::Shuffle] {
        assert_eq!(mode_of_name(mode_name(mode)), Some(mode));
    }
    assert_eq!(mode_of_name("polka"), None);
    assert_eq!(mode_of_name(""), None);
}

#[test]
fn filters_apply_to_explore_and_taxi_alone() {
    assert!(mode_uses_filters(Mode::Explore));
    assert!(mode_uses_filters(Mode::Taxi));
    assert!(!mode_uses_filters(Mode::Islands));
    assert!(!mode_uses_filters(Mode::Random));
    assert!(!mode_uses_filters(Mode::Shuffle));
}

#[test]
fn splitting_and_uppercasing() {
    assert_eq!(split_commas("1960,1980"), vec!["1960", "1980"]);
    assert_eq!(split_commas("solo"), vec!["solo"]);
    assert_eq!(split_commas(""), vec![""]);
    assert_eq!(split_commas("a,,b"), vec!["a", "", "b"]);
    assert_eq!(to_upper("slow-Fast_9"), "SLOW-FAST_9");
    assert_eq!(split_commas_upper("fra,ita"), vec!["FRA", "ITA"]);
}

#[test]
fn prompt_options_are_the_fixed_lists() {
    assert_eq!(mode_options(), vec!["explore", "islands", "taxi", "random"]);
    assert_eq!(mood_options(), vec!["SLOW", "FAST", "WEIRD"]);
    let decades = decade_options();
    assert_eq!(decades.len(), 14);
    assert_eq!(decades[0], "1900");
    assert_eq!(decades[13], "2070");
    let countries = country_options();
    assert_eq!(countries.len(), 66);
    assert_eq!(countries[0], "FRA");
    assert_eq!(countries[65], "KWT");
}

#[test]
fn empty_moods_widen_to_all_three() {
    assert_eq!(default_moods(), vec!["SLOW", "FAST", "WEIRD"]);
    assert_eq!(normalize_moods(Vec::new()), vec!["SLOW", "FAST", "WEIRD"]);
    assert_eq!(normalize_moods(vec!["FAST".to_string()]), vec!["FAST"]);
}

#[test]
fn direct_path_runs_exactly_when_a_flag_is_given() {
    assert!(!direct_requested(&bare_cli()));
    let mut cli = bare_cli();
    cli.random = true;
    assert!(direct_requested(&cli));
    let mut cli = bare_cli();
    cli.decades = Some("1960".to_string());
    assert!(direct_requested(&cli));
    let mut cli = bare_cli();
    cli.moods = Some("SLOW".to_string());
    assert!(direct_requested(&cli));
    let mut cli = bare_cli();
    cli.countries = Some("FRA".to_string());
    assert!(direct_requested(&cli));
}

#[test]
fn direct_selection_parses_and_defaults() {
    let mut cli = bare_cli();
    cli.decades = Some("1960,1980".to_string());
    cli.moods = Some("slow,fast".to_string());
    cli.countries = Some("fra,ita".to_string());
    let sel = direct_selection(&cli);
    assert_eq!(sel.mode, Mode::Explore);
    assert_eq!(sel.decades, vec!["1960", "1980"]);
    assert_eq!(sel.moods, vec!["SLOW", "FAST"]);
    assert_eq!(sel.countries, vec!["FRA", "ITA"]);
    assert!(sel.island.is_none());

    let mut cli = bare_cli();
    cli.decades = Some("2000".to_string());
    let sel = direct_selection(&cli);
    assert_eq!(sel.moods, vec!["SLOW", "FAST", "WEIRD"]);
    assert!(sel.countries.is_empty());
}

#[test]
fn unknown_mode_name_falls_back_to_shuffle() {
    let mut cli = bare_cli();
    cli.mode = "freeform".to_string();
    cli.moods = Some("SLOW".to_string());
    let sel = direct_selection(&cli);
    assert_eq!(sel.mode, Mode::Shuffle);
}

#[test]
fn random_flag_selects_everything() {
    let mut cli = bare_cli();
    cli.random = true;
    cli.decades = Some("1960".to_string());
    let sel = direct_selection(&cli);
    assert_eq!(sel.mode, Mode::Random);
    assert!(sel.decades.is_empty());
    assert_eq!(sel.moods, vec!["SLOW", "FAST", "WEIRD"]);
    assert!(sel.countries.is_empty());
}

#[test]
fn assembled_selection_holds_island_exactly_in_islands_mode() {
    let island = Island {
        id: "isl1".to_string(),
        name: "Morning".to_string(),
        category: None,
        modified: None,
    };
    let sel = assemble_selection(
        Mode::Islands,
        Some(island),
        Vec::new(),
        Vec::new(),
        Vec::new(),
    );
    assert_eq!(sel.mode, Mode::Islands);
    assert!(sel.island.is_some());
    assert_eq!(sel.moods, vec!["SLOW", "FAST", "WEIRD"]);

    let sel = assemble_selection(
        Mode::Taxi,
        None,
        vec!["FAST".to_string()],
        vec!["1990".to_string()],
        vec!["USA".to_string()],
    );
    assert_eq!(sel.mode, Mode::Taxi);
    assert!(sel.island.is_none());
    assert_eq!(sel.moods, vec!["FAST"]);
    assert_eq!(sel.decades, vec!["1990"]);
    assert_eq!(sel.countries, vec!["USA"]);
}
