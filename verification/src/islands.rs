use vstd::prelude::*;
use vstd::string::StringExecFns;

use crate::text::is_prefix;
use crate::text::starts_with;

verus! {

/// The modification record the island-map endpoint attaches to an island.
#[derive(Debug)]
pub struct Modified {
    pub date: String,
}

impl View for Modified {
    type V = Seq<char>;

    open spec fn view(&self) -> Seq<char> {
        self.date@
    }
}

/// One island of the island map: an identifier, a display name, an optional
/// category, and an optional last-modified record.
#[derive(Debug)]
pub struct Island {
    pub id: String,
    pub name: String,
    pub category: Option<String>,
    pub modified: Option<Modified>,
}

#[verifier::ext_equal]
pub ghost struct IslandView {
    pub id: Seq<char>,
    pub name: Seq<char>,
    pub category: Option<Seq<char>>,
    pub modified: Option<Seq<char>>,
}

impl View for Island {
    type V = IslandView;

    open spec fn view(&self) -> IslandView {
        IslandView {
            id: self.id@,
            name: self.name@,
            category: match self.category {
                Some(c) => Some(c@),
                None => None,
            },
            modified: match self.modified {
                Some(m) => Some(m.date@),
                None => None,
            },
        }
    }
}

/// The endpoint the island map is read from.
pub fn island_map_url() -> (r: &'static str)
    ensures
        r@ == "https://app.radiooooo.com/island/map"@,
{
    "https://app.radiooooo.com/island/map"
}

/// The instant an RFC 3339 date-time string denotes, as whole seconds since
/// the epoch and nanoseconds within the second, or `None` where the string is
/// not a valid RFC 3339 date-time.
pub uninterp spec fn rfc3339_instant(s: Seq<char>) -> Option<(i64, u32)>;

/// Relies on chrono's `DateTime::parse_from_rfc3339`: the result depends on
/// the text alone. The pair is the parsed instant's whole seconds since the
/// epoch and its nanoseconds within the second; chrono orders date-times by
/// exactly this pair, taken lexicographically.
#[verifier::external_body]
fn parse_rfc3339_instant(s: &str) -> (r: Option<(i64, u32)>)
    ensures
        r == rfc3339_instant(s@),
{
    chrono::DateTime::parse_from_rfc3339(s).ok().map(
        |dt| {
            let utc = dt.with_timezone(&chrono::Utc);
            (utc.timestamp(), utc.timestamp_subsec_nanos())
        },
    )
}

/// The instant an island was last modified: `None` where the record is absent
/// or its date does not parse.
pub open spec fn island_key(v: IslandView) -> Option<(i64, u32)> {
    match v.modified {
        Some(d) => rfc3339_instant(d),
        None => None,
    }
}

/// The last-modified instant of an island, or `None` where the island has
/// none it can be given.
pub fn island_modified_timestamp(island: &Island) -> (r: Option<(i64, u32)>)
    ensures
        r == island_key(island@),
{
    match &island.modified {
        Some(m) => parse_rfc3339_instant(m.date.as_str()),
        None => None,
    }
}

/// A strict order on modification instants: an absent instant comes below
/// every present one, and present instants compare lexicographically.
pub open spec fn key_lt(a: Option<(i64, u32)>, b: Option<(i64, u32)>) -> bool {
    match a {
        None => b is Some,
        Some(pa) => match b {
            None => false,
            Some(pb) => pa.0 < pb.0 || (pa.0 == pb.0 && pa.1 < pb.1),
        },
    }
}

fn key_lt_exec(a: Option<(i64, u32)>, b: Option<(i64, u32)>) -> (r: bool)
    ensures
        r == key_lt(a, b),
{
    match a {
        None => b.is_some(),
        Some(pa) => match b {
            None => false,
            Some(pb) => pa.0 < pb.0 || (pa.0 == pb.0 && pa.1 < pb.1),
        },
    }
}

/// The display label of an island: its name, then its category (or `other`
/// where it has none) in brackets.
pub open spec fn island_label_spec(v: IslandView) -> Seq<char> {
    v.name + " ["@ + (match v.category {
        Some(c) => c,
        None => "other"@,
    }) + "]"@
}

/// The label an island is shown under in the island prompt.
pub fn island_label(island: &Island) -> (r: String)
    ensures
        r@ == island_label_spec(island@),
{
    let mut out = String::from_str(island.name.as_str());
    out.append(" [");
    match &island.category {
        Some(c) => out.append(c.as_str()),
        None => out.append("other"),
    }
    out.append("]");
    out
}

/// The labels of a sequence of islands, in the sequence's order.
pub open spec fn island_labels_spec(s: Seq<Island>) -> Seq<Seq<char>> {
    Seq::new(s.len(), |i: int| island_label_spec(s[i]@))
}

/// The labels of a list of islands, in the list's order.
pub fn island_labels(islands: &Vec<Island>) -> (r: Vec<String>)
    ensures
        r.deep_view() == island_labels_spec(islands@),
{
    let mut out: Vec<String> = Vec::new();
    let mut i: usize = 0;
    while i < islands.len()
        invariant
            i <= islands@.len(),
            out.deep_view() =~= island_labels_spec(islands@.subrange(0, i as int)),
        decreases islands@.len() - i,
    {
        let label = island_label(&islands[i]);
        let ghost prev = out.deep_view();
        out.push(label);
        proof {
            let pre = islands@.subrange(0, i as int + 1);
            assert(out.deep_view().len() == out@.len());
            assert(prev.len() == i);
            assert(out@.len() == i + 1);
            assert(island_labels_spec(pre).len() == pre.len());
            assert(pre.len() == i + 1);
            assert(out.deep_view().len() == island_labels_spec(pre).len());
            assert forall|j: int| 0 <= j < out.deep_view().len() implies out.deep_view()[j]
                == island_labels_spec(pre)[j] by {
                assert(out.deep_view()[j] == out@[j]@);
                assert(pre[j] == islands@[j]);
                if j < i {
                    assert(out@[j]@ == prev[j]);
                }
            }
            assert(out.deep_view() =~= island_labels_spec(pre));
        }
        i += 1;
    }
    proof {
        assert(islands@.subrange(0, islands@.len() as int) =~= islands@);
    }
    out
}

/// Where an island goes among islands already ordered by falling instant:
/// after every island whose instant is not below its own, before the rest, so
/// islands of equal instant keep their order.
pub open spec fn insert_desc(x: Island, s: Seq<Island>) -> Seq<Island>
    decreases s.len(),
{
    if s.len() == 0 {
        seq![x]
    } else if key_lt(island_key(s[0]@), island_key(x@)) {
        seq![x] + s
    } else {
        seq![s[0]] + insert_desc(x, s.drop_first())
    }
}

/// The islands in falling order of modification instant, islands without one
/// last, ties kept in the input's order.
pub open spec fn sort_islands_spec(s: Seq<Island>) -> Seq<Island>
    decreases s.len(),
{
    if s.len() == 0 {
        Seq::empty()
    } else {
        insert_desc(s.last(), sort_islands_spec(s.drop_last()))
    }
}

/// Whether a sequence of islands is ordered by falling modification instant.
pub open spec fn sorted_desc(s: Seq<Island>) -> bool {
    forall|i: int, j: int|
        0 <= i < j < s.len() ==> !key_lt(island_key(s[i]@), island_key(s[j]@))
}

/// The islands of `s` whose modification instant is `k`, in the order `s`
/// holds them.
pub open spec fn with_key(s: Seq<Island>, k: Option<(i64, u32)>) -> Seq<Island>
    decreases s.len(),
{
    if s.len() == 0 {
        Seq::empty()
    } else if island_key(s.last()@) == k {
        with_key(s.drop_last(), k).push(s.last())
    } else {
        with_key(s.drop_last(), k)
    }
}

proof fn lemma_with_key_add(a: Seq<Island>, b: Seq<Island>, k: Option<(i64, u32)>)
    ensures
        with_key(a + b, k) == with_key(a, k) + with_key(b, k),
    decreases b.len(),
{
    if b.len() == 0 {
        assert(a + b =~= a);
        assert(with_key(b, k) =~= Seq::<Island>::empty());
        assert(with_key(a, k) + with_key(b, k) =~= with_key(a, k));
    } else {
        lemma_with_key_add(a, b.drop_last(), k);
        assert((a + b).drop_last() =~= a + b.drop_last());
        assert((a + b).last() == b.last());
        if island_key(b.last()@) == k {
            assert(with_key(a, k) + with_key(b.drop_last(), k).push(b.last()) =~= (with_key(a, k)
                + with_key(b.drop_last(), k)).push(b.last()));
        }
    }
}

proof fn lemma_with_key_none_matches(s: Seq<Island>, k: Option<(i64, u32)>)
    requires
        forall|j: int| 0 <= j < s.len() ==> island_key(s[j]@) != k,
    ensures
        with_key(s, k) == Seq::<Island>::empty(),
    decreases s.len(),
{
    if s.len() > 0 {
        lemma_with_key_none_matches(s.drop_last(), k);
    }
}

proof fn lemma_with_key_singleton(a: Island, k: Option<(i64, u32)>)
    ensures
        with_key(seq![a], k) == if island_key(a@) == k {
            seq![a]
        } else {
            Seq::<Island>::empty()
        },
{
    reveal_with_fuel(with_key, 2);
    assert(seq![a].len() == 1);
    assert(seq![a].last() == a);
    assert(seq![a].drop_last() =~= Seq::<Island>::empty());
    assert(with_key(Seq::<Island>::empty(), k) == Seq::<Island>::empty());
    if island_key(a@) == k {
        assert(with_key(seq![a], k) =~= seq![a]);
    } else {
        assert(with_key(seq![a], k) =~= Seq::<Island>::empty());
    }
}

proof fn lemma_insert_desc_shape(x: Island, s: Seq<Island>)
    ensures
        insert_desc(x, s).len() == s.len() + 1,
        forall|j: int|
            0 <= j < insert_desc(x, s).len() ==> insert_desc(x, s)[j] == x || s.contains(
                insert_desc(x, s)[j],
            ),
    decreases s.len(),
{
    if s.len() == 0 {
    } else if key_lt(island_key(s[0]@), island_key(x@)) {
        assert forall|j: int| 0 <= j < insert_desc(x, s).len() implies insert_desc(x, s)[j] == x
            || s.contains(insert_desc(x, s)[j]) by {
            if j > 0 {
                assert(insert_desc(x, s)[j] == s[j - 1]);
            }
        }
    } else {
        lemma_insert_desc_shape(x, s.drop_first());
        assert forall|j: int| 0 <= j < insert_desc(x, s).len() implies insert_desc(x, s)[j] == x
            || s.contains(insert_desc(x, s)[j]) by {
            if j > 0 {
                let inner = insert_desc(x, s.drop_first());
                assert(insert_desc(x, s)[j] == inner[j - 1]);
                if inner[j - 1] != x {
                    let w = choose|w: int|
                        0 <= w < s.drop_first().len() && s.drop_first()[w] == inner[j - 1];
                    assert(s[w + 1] == inner[j - 1]);
                }
            }
        }
    }
}

proof fn lemma_insert_desc_sorted(x: Island, s: Seq<Island>)
    requires
        sorted_desc(s),
    ensures
        sorted_desc(insert_desc(x, s)),
    decreases s.len(),
{
    if s.len() == 0 {
    } else if key_lt(island_key(s[0]@), island_key(x@)) {
        let r = seq![x] + s;
        assert forall|i: int, j: int| 0 <= i < j < r.len() implies !key_lt(
            island_key(r[i]@),
            island_key(r[j]@),
        ) by {
            if i == 0 {
                assert(r[j] == s[j - 1]);
                if j - 1 > 0 {
                    assert(!key_lt(island_key(s[0]@), island_key(s[j - 1]@)));
                }
            } else {
                assert(r[i] == s[i - 1] && r[j] == s[j - 1]);
            }
        }
    } else {
        let s1 = s.drop_first();
        assert forall|i: int, j: int| 0 <= i < j < s1.len() implies !key_lt(
            island_key(s1[i]@),
            island_key(s1[j]@),
        ) by {
            assert(s1[i] == s[i + 1] && s1[j] == s[j + 1]);
        }
        lemma_insert_desc_sorted(x, s1);
        lemma_insert_desc_shape(x, s1);
        let inner = insert_desc(x, s1);
        let r = seq![s[0]] + inner;
        assert forall|i: int, j: int| 0 <= i < j < r.len() implies !key_lt(
            island_key(r[i]@),
            island_key(r[j]@),
        ) by {
            if i == 0 {
                assert(r[j] == inner[j - 1]);
                if inner[j - 1] == x {
                } else {
                    let w = choose|w: int| 0 <= w < s1.len() && s1[w] == inner[j - 1];
                    assert(s1[w] == s[w + 1]);
                    assert(!key_lt(island_key(s[0]@), island_key(s[w + 1]@)));
                }
            } else {
                assert(r[i] == inner[i - 1] && r[j] == inner[j - 1]);
            }
        }
    }
}

proof fn lemma_insert_desc_with_key(x: Island, s: Seq<Island>, k: Option<(i64, u32)>)
    requires
        sorted_desc(s),
    ensures
        with_key(insert_desc(x, s), k) == if island_key(x@) == k {
            with_key(s, k).push(x)
        } else {
            with_key(s, k)
        },
    decreases s.len(),
{
    if s.len() == 0 {
        lemma_with_key_singleton(x, k);
        if island_key(x@) == k {
            assert(with_key(s, k).push(x) =~= seq![x]);
        }
    } else if key_lt(island_key(s[0]@), island_key(x@)) {
        lemma_with_key_add(seq![x], s, k);
        lemma_with_key_singleton(x, k);
        if island_key(x@) == k {
            assert forall|j: int| 0 <= j < s.len() implies island_key(s[j]@) != k by {
                if j > 0 {
                    assert(!key_lt(island_key(s[0]@), island_key(s[j]@)));
                }
            }
            lemma_with_key_none_matches(s, k);
            assert(with_key(insert_desc(x, s), k) =~= with_key(s, k).push(x));
        } else {
            assert(with_key(insert_desc(x, s), k) =~= with_key(s, k));
        }
    } else {
        let s1 = s.drop_first();
        assert forall|i: int, j: int| 0 <= i < j < s1.len() implies !key_lt(
            island_key(s1[i]@),
            island_key(s1[j]@),
        ) by {
            assert(s1[i] == s[i + 1] && s1[j] == s[j + 1]);
        }
        lemma_insert_desc_with_key(x, s1, k);
        lemma_with_key_add(seq![s[0]], insert_desc(x, s1), k);
        lemma_with_key_add(seq![s[0]], s1, k);
        assert(s =~= seq![s[0]] + s1);
        if island_key(x@) == k {
            assert(with_key(seq![s[0]], k) + with_key(s1, k).push(x) =~= (with_key(seq![s[0]], k)
                + with_key(s1, k)).push(x));
        }
    }
}

/// Orders the islands by falling modification instant: islands whose record
/// is absent or does not parse go after every island with an instant, and
/// islands of equal instant keep the order they arrived in.
pub fn sort_islands_by_modified(islands: Vec<Island>) -> (r: Vec<Island>)
    ensures
        r@ == sort_islands_spec(islands@),
{
    let ghost orig = islands@;
    let mut rem = islands;
    let mut acc: Vec<Island> = Vec::new();
    proof {
        assert(orig.subrange(0, 0) =~= Seq::<Island>::empty());
    }
    while rem.len() > 0
        invariant
            rem@.len() <= orig.len(),
            rem@ =~= orig.subrange(orig.len() - rem@.len(), orig.len() as int),
            acc@ == sort_islands_spec(orig.subrange(0, orig.len() - rem@.len())),
        decreases rem@.len(),
    {
        let ghost k = orig.len() - rem@.len();
        let x = rem.remove(0);
        proof {
            assert(x == orig[k]);
            assert(rem@ =~= orig.subrange(k + 1, orig.len() as int));
        }
        acc = insert_sorted(x, acc);
        proof {
            let pre = orig.subrange(0, k + 1);
            assert(pre.drop_last() =~= orig.subrange(0, k));
            assert(pre.last() == orig[k]);
        }
    }
    proof {
        assert(orig.subrange(0, orig.len() as int) =~= orig);
    }
    acc
}

/// Places one island among islands already in falling order.
fn insert_sorted(x: Island, v: Vec<Island>) -> (r: Vec<Island>)
    ensures
        r@ == insert_desc(x, v@),
    decreases v@.len(),
{
    let ghost v0 = v@;
    if v.len() == 0 {
        let mut r = v;
        r.push(x);
        proof {
            assert(r@ =~= seq![x]);
        }
        r
    } else {
        let kx = island_modified_timestamp(&x);
        let k0 = island_modified_timestamp(&v[0]);
        if key_lt_exec(k0, kx) {
            let mut r = v;
            r.insert(0, x);
            proof {
                assert(r@ =~= seq![x] + v0);
            }
            r
        } else {
            let mut rest = v;
            let first = rest.remove(0);
            proof {
                assert(rest@ =~= v0.drop_first());
            }
            let mut r = insert_sorted(x, rest);
            r.insert(0, first);
            proof {
                assert(r@ =~= seq![first] + insert_desc(x, v0.drop_first()));
            }
            r
        }
    }
}

/// The ordering law of the island list: the sorted islands fall by
/// modification instant, and every island whose instant cannot be read stands
/// after every island whose instant can.
pub proof fn lemma_sort_islands_sorted(s: Seq<Island>)
    ensures
        sorted_desc(sort_islands_spec(s)),
        forall|i: int, j: int|
            0 <= i < j < sort_islands_spec(s).len() && island_key(sort_islands_spec(s)[i]@)
                is None ==> island_key(sort_islands_spec(s)[j]@) is None,
    decreases s.len(),
{
    if s.len() > 0 {
        lemma_sort_islands_sorted(s.drop_last());
        lemma_insert_desc_sorted(s.last(), sort_islands_spec(s.drop_last()));
    }
    let r = sort_islands_spec(s);
    assert forall|i: int, j: int|
        0 <= i < j < r.len() && island_key(r[i]@) is None implies island_key(r[j]@) is None by {
        assert(!key_lt(island_key(r[i]@), island_key(r[j]@)));
    }
}

/// The stability law of the island list: for any modification instant, the
/// islands holding it come out in exactly the order they went in; with the
/// ordering law this pins the sorted list down completely.
pub proof fn lemma_sort_islands_stable(s: Seq<Island>, k: Option<(i64, u32)>)
    ensures
        with_key(sort_islands_spec(s), k) == with_key(s, k),
    decreases s.len(),
{
    if s.len() > 0 {
        lemma_sort_islands_stable(s.drop_last(), k);
        lemma_sort_islands_sorted(s.drop_last());
        lemma_insert_desc_with_key(s.last(), sort_islands_spec(s.drop_last()), k);
    }
}

/// The position of the first island whose name opens the chosen label, the
/// way a chosen prompt line is mapped back to its island.
pub fn find_island_index(islands: &Vec<Island>, label: &str) -> (r: Option<usize>)
    ensures
        match r {
            Some(j) => j < islands@.len() && is_prefix(islands@[j as int]@.name, label@) && forall|
                k: int,
            | 0 <= k < j ==> !is_prefix(islands@[k]@.name, label@),
            None => forall|k: int|
                0 <= k < islands@.len() ==> !is_prefix(islands@[k]@.name, label@),
        },
{
    let mut i: usize = 0;
    while i < islands.len()
        invariant
            i <= islands@.len(),
            forall|k: int| 0 <= k < i ==> !is_prefix(islands@[k]@.name, label@),
        decreases islands@.len() - i,
    {
        if starts_with(label, islands[i].name.as_str()) {
            return Some(i);
        }
        i += 1;
    }
    None
}

} // verus!
