use vstd::prelude::*;
use vstd::string::StringExecFns;

use crate::islands::Island;
use crate::islands::IslandView;
use crate::text::str_eq;

verus! {

/// The request strategy: a full filter set, a curated island, the taxi
/// variant of the filter set, or a server-chosen track.
#[derive(Clone, Copy, PartialEq, Eq, Structural, Debug)]
pub enum Mode {
    Explore,
    Islands,
    Taxi,
    Random,
    Shuffle,
}

/// The name a mode carries in requests and on the command line.
pub open spec fn mode_str(m: Mode) -> Seq<char> {
    match m {
        Mode::Explore => "explore"@,
        Mode::Islands => "islands"@,
        Mode::Taxi => "taxi"@,
        Mode::Random => "random"@,
        Mode::Shuffle => "shuffle"@,
    }
}

/// The name of a mode, as the service knows it.
pub fn mode_name(m: Mode) -> (r: &'static str)
    ensures
        r@ == mode_str(m),
{
    match m {
        Mode::Explore => "explore",
        Mode::Islands => "islands",
        Mode::Taxi => "taxi",
        Mode::Random => "random",
        Mode::Shuffle => "shuffle",
    }
}

/// The mode a name denotes on the command line; an unknown name falls back to
/// the shuffle-shaped request.
pub open spec fn mode_of_name_total(s: Seq<char>) -> Mode {
    if s == mode_str(Mode::Explore) {
        Mode::Explore
    } else if s == mode_str(Mode::Islands) {
        Mode::Islands
    } else if s == mode_str(Mode::Taxi) {
        Mode::Taxi
    } else if s == mode_str(Mode::Random) {
        Mode::Random
    } else {
        Mode::Shuffle
    }
}

/// The mode a name denotes, where it denotes one.
pub fn mode_of_name(s: &str) -> (r: Option<Mode>)
    ensures
        match r {
            Some(m) => s@ == mode_str(m) && mode_of_name_total(s@) == m,
            None => (forall|m: Mode| s@ != mode_str(m)) && mode_of_name_total(s@)
                == Mode::Shuffle,
        },
{
    if str_eq(s, "explore") {
        Some(Mode::Explore)
    } else if str_eq(s, "islands") {
        Some(Mode::Islands)
    } else if str_eq(s, "taxi") {
        Some(Mode::Taxi)
    } else if str_eq(s, "random") {
        Some(Mode::Random)
    } else if str_eq(s, "shuffle") {
        Some(Mode::Shuffle)
    } else {
        proof {
            assert forall|m: Mode| s@ != mode_str(m) by {
                assert(s@ != "explore"@);
                assert(s@ != "islands"@);
                assert(s@ != "taxi"@);
                assert(s@ != "random"@);
                assert(s@ != "shuffle"@);
            }
        }
        None
    }
}

/// The three mood tags, the default when no mood is chosen.
pub open spec fn all_moods() -> Seq<Seq<char>> {
    seq!["SLOW"@, "FAST"@, "WEIRD"@]
}

/// The full mood list, handed out where a selection left the moods empty.
pub fn default_moods() -> (r: Vec<String>)
    ensures
        r.deep_view() == all_moods(),
{
    let mut out: Vec<String> = Vec::new();
    out.push(String::from_str("SLOW"));
    out.push(String::from_str("FAST"));
    out.push(String::from_str("WEIRD"));
    proof {
        assert(out.deep_view() =~= all_moods());
    }
    out
}

/// An empty mood choice means every mood; any other choice stands as it is.
pub fn normalize_moods(moods: Vec<String>) -> (r: Vec<String>)
    ensures
        moods.deep_view().len() == 0 ==> r.deep_view() == all_moods(),
        moods.deep_view().len() > 0 ==> r.deep_view() == moods.deep_view(),
{
    if moods.is_empty() {
        default_moods()
    } else {
        moods
    }
}

/// The modes the interactive prompt offers, by their request names.
pub fn mode_options() -> (r: Vec<&'static str>)
    ensures
        r.deep_view() == seq![
            mode_str(Mode::Explore),
            mode_str(Mode::Islands),
            mode_str(Mode::Taxi),
            mode_str(Mode::Random),
        ],
{
    let mut out: Vec<&'static str> = Vec::new();
    out.push("explore");
    out.push("islands");
    out.push("taxi");
    out.push("random");
    proof {
        assert(out.deep_view() =~= seq![
            mode_str(Mode::Explore),
            mode_str(Mode::Islands),
            mode_str(Mode::Taxi),
            mode_str(Mode::Random),
        ]);
    }
    out
}

/// The mood tags the prompt offers: exactly the full mood list.
pub fn mood_options() -> (r: Vec<&'static str>)
    ensures
        r.deep_view() == all_moods(),
{
    let mut out: Vec<&'static str> = Vec::new();
    out.push("SLOW");
    out.push("FAST");
    out.push("WEIRD");
    proof {
        assert(out.deep_view() =~= all_moods());
    }
    out
}

/// The decades the interactive prompt offers.
pub open spec fn decade_choices() -> Seq<Seq<char>> {
    seq![
        "1900"@,
        "1910"@,
        "1920"@,
        "1930"@,
        "1940"@,
        "1950"@,
        "1960"@,
        "1970"@,
        "1980"@,
        "1990"@,
        "2000"@,
        "2010"@,
        "2020"@,
        "2070"@,
    ]
}

/// The decade list the prompt offers, in its fixed order.
pub fn decade_options() -> (r: Vec<&'static str>)
    ensures
        r.deep_view() == decade_choices(),
{
    let mut out: Vec<&'static str> = Vec::new();
    out.push("1900");
    out.push("1910");
    out.push("1920");
    out.push("1930");
    out.push("1940");
    out.push("1950");
    out.push("1960");
    out.push("1970");
    out.push("1980");
    out.push("1990");
    out.push("2000");
    out.push("2010");
    out.push("2020");
    out.push("2070");
    proof {
        assert(out.deep_view() =~= decade_choices());
    }
    out
}

/// The ISO country codes the interactive prompt offers.
pub open spec fn country_choices() -> Seq<Seq<char>> {
    seq![
        "FRA"@, "USA"@, "ITA"@, "JPN"@, "BRA"@, "GBR"@,
        "DEU"@, "ESP"@, "RUS"@, "CAN"@, "MEX"@, "IND"@,
        "CHN"@, "AUS"@, "ARG"@, "KOR"@, "SWE"@, "NLD"@,
        "BEL"@, "CHE"@, "AUT"@, "NOR"@, "DNK"@, "FIN"@,
        "IRL"@, "PRT"@, "GRC"@, "TUR"@, "POL"@, "CZE"@,
        "HUN"@, "ROU"@, "BGR"@, "SRB"@, "UKR"@, "BLR"@,
        "EGY"@, "ZAF"@, "NGA"@, "KEN"@, "MAR"@, "TUN"@,
        "SAU"@, "ISR"@, "ARE"@, "IRN"@, "PAK"@, "BGD"@,
        "THA"@, "VNM"@, "IDN"@, "PHL"@, "NZL"@, "SGP"@,
        "HKG"@, "TWN"@, "COL"@, "PER"@, "CHL"@, "VEN"@,
        "MYS"@, "LKA"@, "NPL"@, "LBN"@, "JOR"@, "KWT"@,
    ]
}

/// The country list the prompt offers, in its fixed order.
pub fn country_options() -> (r: Vec<&'static str>)
    ensures
        r.deep_view() == country_choices(),
{
    let codes: Vec<&'static str> = vec![
        "FRA", "USA", "ITA", "JPN", "BRA", "GBR",
        "DEU", "ESP", "RUS", "CAN", "MEX", "IND",
        "CHN", "AUS", "ARG", "KOR", "SWE", "NLD",
        "BEL", "CHE", "AUT", "NOR", "DNK", "FIN",
        "IRL", "PRT", "GRC", "TUR", "POL", "CZE",
        "HUN", "ROU", "BGR", "SRB", "UKR", "BLR",
        "EGY", "ZAF", "NGA", "KEN", "MAR", "TUN",
        "SAU", "ISR", "ARE", "IRN", "PAK", "BGD",
        "THA", "VNM", "IDN", "PHL", "NZL", "SGP",
        "HKG", "TWN", "COL", "PER", "CHL", "VEN",
        "MYS", "LKA", "NPL", "LBN", "JOR", "KWT",
    ];
    proof {
        assert(codes.deep_view() =~= country_choices());
    }
    codes
}

/// A fully-populated filter selection, fixed before the playback loop starts.
pub struct Selection {
    pub mode: Mode,
    pub decades: Vec<String>,
    pub moods: Vec<String>,
    pub countries: Vec<String>,
    pub island: Option<Island>,
}

#[verifier::ext_equal]
pub ghost struct SelectionView {
    pub mode: Mode,
    pub decades: Seq<Seq<char>>,
    pub moods: Seq<Seq<char>>,
    pub countries: Seq<Seq<char>>,
    pub island: Option<IslandView>,
}

impl SelectionView {
    /// An island is attached exactly in islands mode.
    pub open spec fn wf(self) -> bool {
        (self.island is Some) <==> (self.mode is Islands)
    }
}

impl View for Selection {
    type V = SelectionView;

    open spec fn view(&self) -> SelectionView {
        SelectionView {
            mode: self.mode,
            decades: self.decades.deep_view(),
            moods: self.moods.deep_view(),
            countries: self.countries.deep_view(),
            island: match self.island {
                Some(i) => Some(i@),
                None => None,
            },
        }
    }
}

/// Whether decade and country filters apply to a mode.
pub open spec fn mode_uses_filters_spec(m: Mode) -> bool {
    m is Explore || m is Taxi
}

/// Decade and country filters apply in explore and taxi mode alone; the other
/// modes leave them out of prompts and requests.
pub fn mode_uses_filters(m: Mode) -> (r: bool)
    ensures
        r == mode_uses_filters_spec(m),
{
    match m {
        Mode::Explore => true,
        Mode::Taxi => true,
        _ => false,
    }
}

/// The selection played in random order: every decade, mood and country.
pub fn random_selection() -> (r: Selection)
    ensures
        r@.mode == Mode::Random,
        r@.decades == Seq::<Seq<char>>::empty(),
        r@.moods == all_moods(),
        r@.countries == Seq::<Seq<char>>::empty(),
        r@.island is None,
        r@.wf(),
{
    let r = Selection {
        mode: Mode::Random,
        decades: Vec::new(),
        moods: default_moods(),
        countries: Vec::new(),
        island: None,
    };
    proof {
        assert(r@.decades =~= Seq::<Seq<char>>::empty());
        assert(r@.countries =~= Seq::<Seq<char>>::empty());
    }
    r
}

/// Builds the selection the playback loop will hold fixed: the chosen mode,
/// its island where the mode asks for one, and the chosen filters, with an
/// empty mood choice widened to every mood.
pub fn assemble_selection(
    mode: Mode,
    island: Option<Island>,
    moods: Vec<String>,
    decades: Vec<String>,
    countries: Vec<String>,
) -> (r: Selection)
    requires
        (island is Some) <==> (mode is Islands),
    ensures
        r@.mode == mode,
        r@.decades == decades.deep_view(),
        moods.deep_view().len() == 0 ==> r@.moods == all_moods(),
        moods.deep_view().len() > 0 ==> r@.moods == moods.deep_view(),
        r@.countries == countries.deep_view(),
        match (island, r@.island) {
            (Some(i), Some(v)) => v == i@,
            (None, None) => true,
            _ => false,
        },
        r@.wf(),
{
    Selection { mode, decades, moods: normalize_moods(moods), countries, island }
}

} // verus!
