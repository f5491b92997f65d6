use vstd::prelude::*;

use crate::selection::Mode;
use crate::selection::Selection;
use crate::selection::SelectionView;
use crate::selection::all_moods;
use crate::selection::mode_of_name;
use crate::selection::mode_of_name_total;
use crate::selection::random_selection;
use crate::text::split_commas;
use crate::text::split_commas_spec;
use crate::text::to_upper;
use crate::text::upper_seq;

verus! {

/// The values the command line carries: a mode name, optional comma-separated
/// filter lists, the player executable, the random-order flag, and the
/// verbosity count.
pub struct Cli {
    pub mode: String,
    pub decades: Option<String>,
    pub moods: Option<String>,
    pub countries: Option<String>,
    pub player: String,
    pub random: bool,
    pub verbose: u8,
}

#[verifier::ext_equal]
pub ghost struct CliView {
    pub mode: Seq<char>,
    pub decades: Option<Seq<char>>,
    pub moods: Option<Seq<char>>,
    pub countries: Option<Seq<char>>,
    pub player: Seq<char>,
    pub random: bool,
    pub verbose: u8,
}

impl View for Cli {
    type V = CliView;

    open spec fn view(&self) -> CliView {
        CliView {
            mode: self.mode@,
            decades: self.decades.deep_view(),
            moods: self.moods.deep_view(),
            countries: self.countries.deep_view(),
            player: self.player@,
            random: self.random,
            verbose: self.verbose,
        }
    }
}

/// The logging levels the verbosity count selects among.
#[derive(Clone, Copy, PartialEq, Eq, Structural, Debug)]
pub enum LogLevel {
    Warn,
    Info,
    Debug,
    Trace,
}

/// The level a verbosity count selects: warnings by default, one step more
/// for each repetition of the flag, saturating at trace.
pub open spec fn log_level_spec(verbose: u8) -> LogLevel {
    if verbose == 0 {
        LogLevel::Warn
    } else if verbose == 1 {
        LogLevel::Info
    } else if verbose == 2 {
        LogLevel::Debug
    } else {
        LogLevel::Trace
    }
}

impl Cli {
    /// The logging level the verbosity count asks for.
    pub fn log_level(&self) -> (r: LogLevel)
        ensures
            r == log_level_spec(self.verbose),
    {
        match self.verbose {
            0 => LogLevel::Warn,
            1 => LogLevel::Info,
            2 => LogLevel::Debug,
            _ => LogLevel::Trace,
        }
    }
}

/// Whether the command line asks for the direct path: any filter given, or
/// random order; otherwise the interactive prompts run.
pub fn direct_requested(cli: &Cli) -> (r: bool)
    ensures
        r == (cli@.random || cli@.decades is Some || cli@.moods is Some
            || cli@.countries is Some),
{
    cli.random || cli.decades.is_some() || cli.moods.is_some() || cli.countries.is_some()
}

/// Every token of a comma-separated list, uppercased.
pub open spec fn upper_all(items: Seq<Seq<char>>) -> Seq<Seq<char>> {
    Seq::new(items.len(), |i: int| upper_seq(items[i]))
}

/// Cuts a comma-separated argument into fields and uppercases each.
pub fn split_commas_upper(s: &str) -> (r: Vec<String>)
    ensures
        r.deep_view() == upper_all(split_commas_spec(s@)),
{
    let parts = split_commas(s);
    let mut out: Vec<String> = Vec::new();
    let mut i: usize = 0;
    while i < parts.len()
        invariant
            i <= parts@.len(),
            parts.deep_view() == split_commas_spec(s@),
            out.deep_view() =~= upper_all(parts.deep_view().subrange(0, i as int)),
        decreases parts@.len() - i,
    {
        let ghost prev = out.deep_view();
        let u = to_upper(parts[i].as_str());
        out.push(u);
        proof {
            assert(parts@[i as int]@ == parts.deep_view()[i as int]);
            assert(out.deep_view().len() == out@.len());
            assert(prev.len() == i);
            let pre = parts.deep_view().subrange(0, i as int + 1);
            assert forall|j: int| 0 <= j < out.deep_view().len() implies out.deep_view()[j]
                == upper_all(pre)[j] by {
                assert(out.deep_view()[j] == out@[j]@);
                if j < i {
                    assert(out@[j]@ == prev[j]);
                }
            }
            assert(out.deep_view() =~= upper_all(pre));
        }
        i += 1;
    }
    proof {
        assert(parts.deep_view().subrange(0, parts.deep_view().len() as int) =~= parts.deep_view());
    }
    out
}

/// The selection the direct path builds from the command line alone.
pub open spec fn direct_selection_spec(c: CliView) -> SelectionView {
    if c.random {
        SelectionView {
            mode: Mode::Random,
            decades: Seq::empty(),
            moods: all_moods(),
            countries: Seq::empty(),
            island: None,
        }
    } else {
        SelectionView {
            mode: mode_of_name_total(c.mode),
            decades: match c.decades {
                Some(s) => split_commas_spec(s),
                None => Seq::empty(),
            },
            moods: match c.moods {
                Some(s) => upper_all(split_commas_spec(s)),
                None => all_moods(),
            },
            countries: match c.countries {
                Some(s) => upper_all(split_commas_spec(s)),
                None => Seq::empty(),
            },
            island: None,
        }
    }
}

/// Builds the selection for the direct path: random order keeps every filter
/// wide open; otherwise the comma-separated lists are cut apart, moods and
/// countries uppercased, and absent moods widened to every mood. Islands mode
/// cannot be entered this way, since no island can be named on the command
/// line.
pub fn direct_selection(cli: &Cli) -> (r: Selection)
    requires
        !(direct_selection_spec(cli@).mode is Islands),
    ensures
        r@ == direct_selection_spec(cli@),
        r@.wf(),
{
    if cli.random {
        let r = random_selection();
        proof {
            assert(r@ =~= direct_selection_spec(cli@));
        }
        return r;
    }
    let mode = match mode_of_name(cli.mode.as_str()) {
        Some(m) => m,
        None => Mode::Shuffle,
    };
    let decades: Vec<String> = match &cli.decades {
        Some(s) => split_commas(s.as_str()),
        None => Vec::new(),
    };
    let moods: Vec<String> = match &cli.moods {
        Some(s) => split_commas_upper(s.as_str()),
        None => crate::selection::default_moods(),
    };
    let countries: Vec<String> = match &cli.countries {
        Some(s) => split_commas_upper(s.as_str()),
        None => Vec::new(),
    };
    let r = Selection { mode, decades, moods, countries, island: None };
    proof {
        assert(mode == mode_of_name_total(cli@.mode));
        assert(r@.decades =~= direct_selection_spec(cli@).decades);
        assert(r@.moods =~= direct_selection_spec(cli@).moods);
        assert(r@.countries =~= direct_selection_spec(cli@).countries);
        assert(r@ =~= direct_selection_spec(cli@));
    }
    r
}

} // verus!
