use vstd::prelude::*;
use vstd::string::StrSliceExecFns;
use vstd::string::StringExecFns;

use crate::selection::Mode;
use crate::selection::Selection;
use crate::selection::SelectionView;
use crate::selection::mode_name;
use crate::selection::mode_str;
use crate::text::push_char;

verus! {

/// The hexadecimal digit of a value below sixteen.
pub open spec fn hex_digit(n: int) -> char {
    seq!['0', '1', '2', '3', '4', '5', '6', '7', '8', '9', 'a', 'b', 'c', 'd', 'e', 'f'][n]
}

fn hex_digit_exec(n: u32) -> (r: char)
    requires
        n < 16,
    ensures
        r == hex_digit(n as int),
{
    match n {
        0 => '0',
        1 => '1',
        2 => '2',
        3 => '3',
        4 => '4',
        5 => '5',
        6 => '6',
        7 => '7',
        8 => '8',
        9 => '9',
        10 => 'a',
        11 => 'b',
        12 => 'c',
        13 => 'd',
        14 => 'e',
        _ => 'f',
    }
}

/// How one character stands inside a JSON string: quotes and backslashes are
/// escaped, the named control characters take their short escapes, the other
/// control characters their four-digit escapes, and everything else stands as
/// it is.
pub open spec fn escape_char(c: char) -> Seq<char> {
    if c == '"' {
        "\\\""@
    } else if c == '\\' {
        "\\\\"@
    } else if c == '\u{8}' {
        "\\b"@
    } else if c == '\t' {
        "\\t"@
    } else if c == '\n' {
        "\\n"@
    } else if c == '\u{c}' {
        "\\f"@
    } else if c == '\r' {
        "\\r"@
    } else if (c as u32) < 32 {
        "\\u00"@ + seq![hex_digit(c as u32 as int / 16), hex_digit(c as u32 as int % 16)]
    } else {
        seq![c]
    }
}

/// The characters of `s`, each escaped as JSON asks.
pub open spec fn json_escape(s: Seq<char>) -> Seq<char>
    decreases s.len(),
{
    if s.len() == 0 {
        Seq::empty()
    } else {
        json_escape(s.drop_last()) + escape_char(s.last())
    }
}

/// The JSON string denoting `s`: its escaped characters between quotes.
pub open spec fn json_string(s: Seq<char>) -> Seq<char> {
    "\""@ + json_escape(s) + "\""@
}

/// The items of a JSON array of strings, comma-separated.
pub open spec fn json_string_items(items: Seq<Seq<char>>) -> Seq<char>
    decreases items.len(),
{
    if items.len() == 0 {
        Seq::empty()
    } else if items.len() == 1 {
        json_string(items[0])
    } else {
        json_string_items(items.drop_last()) + ","@ + json_string(items.last())
    }
}

/// The JSON array holding the given strings in order.
pub open spec fn json_array(items: Seq<Seq<char>>) -> Seq<char> {
    "["@ + json_string_items(items) + "]"@
}

fn append_escaped_char(out: &mut String, c: char)
    ensures
        final(out)@ == old(out)@ + escape_char(c),
{
    if c == '"' {
        out.append("\\\"");
    } else if c == '\\' {
        out.append("\\\\");
    } else if c == '\u{8}' {
        out.append("\\b");
    } else if c == '\t' {
        out.append("\\t");
    } else if c == '\n' {
        out.append("\\n");
    } else if c == '\u{c}' {
        out.append("\\f");
    } else if (c as u32) < 32 {
        let n = c as u32;
        if c == '\r' {
            out.append("\\r");
        } else {
            out.append("\\u00");
            let hi = hex_digit_exec(n / 16);
            let lo = hex_digit_exec(n % 16);
            push_char(out, hi);
            push_char(out, lo);
            proof {
                assert(out@ =~= old(out)@ + escape_char(c));
            }
        }
    } else {
        push_char(out, c);
        proof {
            assert(out@ =~= old(out)@ + escape_char(c));
        }
    }
}

/// Appends the JSON string denoting `s`.
pub(crate) fn append_json_string(out: &mut String, s: &str)
    ensures
        final(out)@ == old(out)@ + json_string(s@),
{
    out.append("\"");
    let n = s.unicode_len();
    let mut i: usize = 0;
    while i < n
        invariant
            n == s@.len(),
            i <= n,
            out@ == old(out)@ + "\""@ + json_escape(s@.subrange(0, i as int)),
        decreases n - i,
    {
        let c = s.get_char(i);
        append_escaped_char(out, c);
        proof {
            let pre = s@.subrange(0, i as int + 1);
            assert(pre.drop_last() =~= s@.subrange(0, i as int));
            assert(pre.last() == s@[i as int]);
            assert(out@ =~= old(out)@ + "\""@ + json_escape(pre));
        }
        i += 1;
    }
    proof {
        assert(s@.subrange(0, n as int) =~= s@);
    }
    out.append("\"");
    proof {
        assert(out@ =~= old(out)@ + json_string(s@));
    }
}

/// Appends the JSON array holding the given strings in order.
fn append_json_array(out: &mut String, items: &Vec<String>)
    ensures
        final(out)@ == old(out)@ + json_array(items.deep_view()),
{
    out.append("[");
    let mut i: usize = 0;
    while i < items.len()
        invariant
            i <= items@.len(),
            items.deep_view().len() == items@.len(),
            out@ == old(out)@ + "["@ + json_string_items(items.deep_view().subrange(0, i as int)),
        decreases items@.len() - i,
    {
        if i > 0 {
            out.append(",");
        }
        append_json_string(out, items[i].as_str());
        proof {
            let pre = items.deep_view().subrange(0, i as int + 1);
            assert(pre.drop_last() =~= items.deep_view().subrange(0, i as int));
            assert(pre.last() == items.deep_view()[i as int]);
            assert(items.deep_view()[i as int] == items@[i as int]@);
            assert(out@ =~= old(out)@ + "["@ + json_string_items(pre));
        }
        i += 1;
    }
    proof {
        assert(items.deep_view().subrange(0, items.deep_view().len() as int) =~= items.deep_view());
    }
    out.append("]");
    proof {
        assert(out@ =~= old(out)@ + json_array(items.deep_view()));
    }
}

/// The fields a request body carries: the mode always; the island identifier
/// in islands mode alone; the moods always; decade and country lists exactly
/// in the filtering modes, present even when empty.
#[verifier::ext_equal]
pub ghost struct PayloadView {
    pub mode: Seq<char>,
    pub island: Option<Seq<char>>,
    pub moods: Seq<Seq<char>>,
    pub decades: Option<Seq<Seq<char>>>,
    pub isocodes: Option<Seq<Seq<char>>>,
}

/// The fields a selection asks the play endpoint for.
pub open spec fn payload_fields(s: SelectionView) -> PayloadView {
    PayloadView {
        mode: mode_str(s.mode),
        island: if s.mode is Islands {
            Some(s.island->0.id)
        } else {
            None
        },
        moods: s.moods,
        decades: if s.mode is Explore || s.mode is Taxi {
            Some(s.decades)
        } else {
            None
        },
        isocodes: if s.mode is Explore || s.mode is Taxi {
            Some(s.countries)
        } else {
            None
        },
    }
}

/// The request body's text: a JSON object holding the payload fields, in the
/// order mode, island, moods, decades, isocodes, without spaces.
pub open spec fn render_payload(p: PayloadView) -> Seq<char> {
    "{\"mode\":"@ + json_string(p.mode) + (match p.island {
        Some(id) => ",\"island\":"@ + json_string(id),
        None => Seq::<char>::empty(),
    }) + ",\"moods\":"@ + json_array(p.moods) + (match p.decades {
        Some(d) => ",\"decades\":"@ + json_array(d),
        None => Seq::<char>::empty(),
    }) + (match p.isocodes {
        Some(c) => ",\"isocodes\":"@ + json_array(c),
        None => Seq::<char>::empty(),
    }) + "}"@
}

/// Builds the JSON body sent to the play endpoint for a selection: mode and
/// moods always; the island identifier exactly in islands mode; decade and
/// country lists exactly in explore and taxi mode, empty lists standing for
/// no restriction.
pub fn request_payload(sel: &Selection) -> (r: String)
    requires
        sel@.wf(),
    ensures
        r@ == render_payload(payload_fields(sel@)),
{
    let mut out = String::from_str("{\"mode\":");
    append_json_string(&mut out, mode_name(sel.mode));
    match &sel.island {
        Some(island) => {
            out.append(",\"island\":");
            append_json_string(&mut out, island.id.as_str());
        },
        None => {},
    }
    out.append(",\"moods\":");
    append_json_array(&mut out, &sel.moods);
    if crate::selection::mode_uses_filters(sel.mode) {
        out.append(",\"decades\":");
        append_json_array(&mut out, &sel.decades);
        out.append(",\"isocodes\":");
        append_json_array(&mut out, &sel.countries);
    }
    out.append("}");
    proof {
        assert(out@ =~= render_payload(payload_fields(sel@)));
    }
    out
}

/// In the filtering modes, a selection with no decades and no countries still
/// sends both lists, present and empty: an empty list asks for no restriction,
/// not for nothing, and no island field is sent.
pub proof fn lemma_empty_filters_still_sent(s: SelectionView)
    requires
        s.mode is Explore || s.mode is Taxi,
        s.decades.len() == 0,
        s.countries.len() == 0,
    ensures
        payload_fields(s).decades == Some(Seq::<Seq<char>>::empty()),
        payload_fields(s).isocodes == Some(Seq::<Seq<char>>::empty()),
        payload_fields(s).island is None,
{
    assert(s.decades =~= Seq::<Seq<char>>::empty());
    assert(s.countries =~= Seq::<Seq<char>>::empty());
}

/// In islands mode the payload names exactly the selected island's identifier
/// and carries no decade and no country list.
pub proof fn lemma_islands_payload(s: SelectionView)
    requires
        s.wf(),
        s.mode is Islands,
    ensures
        payload_fields(s).island == Some(s.island->0.id),
        payload_fields(s).decades is None,
        payload_fields(s).isocodes is None,
{
}

/// The path a request goes to: the play endpoint, with the random sub-path in
/// random mode.
pub open spec fn request_url_spec(m: Mode) -> Seq<char> {
    if m is Random {
        "https://radiooooo.com/play"@ + "/random"@
    } else {
        "https://radiooooo.com/play"@
    }
}

/// The play endpoint a mode's requests go to.
pub fn request_url(m: Mode) -> (r: String)
    ensures
        r@ == request_url_spec(m),
{
    let mut out = String::from_str("https://radiooooo.com/play");
    match m {
        Mode::Random => {
            out.append("/random");
        },
        _ => {
            proof {
                assert(out@ =~= request_url_spec(m));
            }
        },
    }
    out
}

} // verus!
