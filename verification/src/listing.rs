//! The overlay listing: the text shown when the chord engine descends into
//! a nested map.  Entries are listed sorted by title — lexicographically by
//! character code, ties broken by entry position, so empty titles come
//! first — one line per entry: the bare key text for an untitled entry,
//! `key - title` otherwise.  The assembled text is trimmed of surrounding
//! whitespace, as the daemon trims it.

use vstd::prelude::*;
use crate::action::MapEntry;
use crate::strutil::{spec_str_lt, spec_trim, str_lt, str_eq, trim_str};

verus! {

/// A title paired with the position of its entry, the unit being sorted.
pub struct TitleIdx {
    pub title: String,
    pub idx: usize,
}

/// The order of the listing: by title, lexicographically by character
/// code, ties broken by entry position.
pub open spec fn spec_pair_le(at: Seq<char>, ai: int, bt: Seq<char>, bi: int) -> bool {
    spec_str_lt(at, bt) || (at == bt && ai <= bi)
}

/// Inserting one element into a sorted run.
pub open spec fn spec_insert_pair(
    t: Seq<char>,
    i: int,
    s: Seq<(Seq<char>, int)>,
) -> Seq<(Seq<char>, int)>
    decreases s.len(),
{
    if s.len() == 0 {
        seq![(t, i)]
    } else if spec_pair_le(t, i, s[0].0, s[0].1) {
        seq![(t, i)].add(s)
    } else {
        seq![s[0]].add(spec_insert_pair(t, i, s.skip(1)))
    }
}

/// Insertion sort of the title/position pairs, processing them in order.
pub open spec fn spec_sort_pairs(s: Seq<(Seq<char>, int)>) -> Seq<(Seq<char>, int)>
    decreases s.len(),
{
    if s.len() == 0 {
        Seq::<(Seq<char>, int)>::empty()
    } else {
        spec_insert_pair(s.last().0, s.last().1, spec_sort_pairs(s.drop_last()))
    }
}

/// The views of the pairs being sorted.
pub open spec fn pair_views(s: Seq<TitleIdx>) -> Seq<(Seq<char>, int)> {
    s.map_values(|p: TitleIdx| (p.title@, p.idx as int))
}

/// Where an insertion point has been located by scanning, the insertion
/// equals splicing at that point.
proof fn lemma_insert_pair_at(t: Seq<char>, i: int, s: Seq<(Seq<char>, int)>, pos: int)
    requires
        0 <= pos <= s.len(),
        forall|j: int| 0 <= j < pos ==> !spec_pair_le(t, i, (#[trigger] s[j]).0, s[j].1),
        pos < s.len() ==> spec_pair_le(t, i, s[pos].0, s[pos].1),
    ensures
        spec_insert_pair(t, i, s) == s.take(pos).add(seq![(t, i)]).add(s.skip(pos)),
    decreases pos,
{
    if s.len() == 0 {
        assert(spec_insert_pair(t, i, s) =~= s.take(0).add(seq![(t, i)]).add(s.skip(0)));
    } else if pos == 0 {
        assert(spec_insert_pair(t, i, s) =~= s.take(0).add(seq![(t, i)]).add(s.skip(0)));
    } else {
        assert(!spec_pair_le(t, i, s[0].0, s[0].1));
        assert(forall|j: int| 0 <= j < pos - 1
            ==> (#[trigger] s.skip(1)[j]) == s[j + 1]);
        if pos - 1 < s.skip(1).len() {
            assert(s.skip(1)[pos - 1] == s[pos]);
        }
        lemma_insert_pair_at(t, i, s.skip(1), pos - 1);
        assert(s.skip(1).take(pos - 1) =~= s.take(pos).skip(1));
        assert(s.skip(1).skip(pos - 1) =~= s.skip(pos));
        assert(seq![s[0]].add(s.take(pos).skip(1).add(seq![(t, i)]).add(s.skip(pos)))
            =~= s.take(pos).add(seq![(t, i)]).add(s.skip(pos)));
    }
}

/// Whether a pair run is sorted: each element comes no later than the
/// next.
pub open spec fn spec_pairs_sorted(s: Seq<(Seq<char>, int)>) -> bool {
    forall|i: int| 0 <= i < s.len() - 1
        ==> spec_pair_le((#[trigger] s[i]).0, s[i].1, s[i + 1].0, s[i + 1].1)
}

/// The listing order is total: of two pairs, one comes no later than the
/// other.
proof fn lemma_pair_le_total(at: Seq<char>, ai: int, bt: Seq<char>, bi: int)
    ensures
        spec_pair_le(at, ai, bt, bi) || spec_pair_le(bt, bi, at, ai),
{
    crate::strutil::lemma_str_lt_total(at, bt);
}

/// Insertion keeps a run sorted.
proof fn lemma_insert_pair_sorted(t: Seq<char>, i: int, s: Seq<(Seq<char>, int)>)
    requires
        spec_pairs_sorted(s),
    ensures
        spec_pairs_sorted(spec_insert_pair(t, i, s)),
    decreases s.len(),
{
    let r = spec_insert_pair(t, i, s);
    if s.len() == 0 {
    } else if spec_pair_le(t, i, s[0].0, s[0].1) {
        assert forall|k: int| 0 <= k < r.len() - 1 implies spec_pair_le(
            (#[trigger] r[k]).0,
            r[k].1,
            r[k + 1].0,
            r[k + 1].1,
        ) by {
            if k == 0 {
                assert(r[0] == (t, i) && r[1] == s[0]);
            } else {
                assert(r[k] == s[k - 1] && r[k + 1] == s[k]);
            }
        }
    } else {
        assert(spec_pairs_sorted(s.skip(1))) by {
            assert(forall|k: int| 0 <= k < s.skip(1).len() ==> (#[trigger] s.skip(1)[k])
                == s[k + 1]);
        }
        lemma_insert_pair_sorted(t, i, s.skip(1));
        lemma_pair_le_total(t, i, s[0].0, s[0].1);
        let inner = spec_insert_pair(t, i, s.skip(1));
        assert forall|k: int| 0 <= k < r.len() - 1 implies spec_pair_le(
            (#[trigger] r[k]).0,
            r[k].1,
            r[k + 1].0,
            r[k + 1].1,
        ) by {
            if k == 0 {
                assert(r[0] == s[0] && r[1] == inner[0]);
                if s.skip(1).len() == 0 || spec_pair_le(t, i, s.skip(1)[0].0, s.skip(1)[0].1) {
                    assert(inner[0] == (t, i));
                } else {
                    assert(inner[0] == s.skip(1)[0]);
                    assert(s.skip(1)[0] == s[1]);
                }
            } else {
                assert(r[k] == inner[k - 1] && r[k + 1] == inner[k]);
            }
        }
    }
}

/// The law of the listing order: the sorted pairs really are sorted — by
/// title, lexicographically by character code, ties broken by entry
/// position, so untitled entries come first.
pub proof fn lemma_sort_pairs_sorted(s: Seq<(Seq<char>, int)>)
    ensures
        spec_pairs_sorted(spec_sort_pairs(s)),
    decreases s.len(),
{
    if s.len() > 0 {
        lemma_sort_pairs_sorted(s.drop_last());
        lemma_insert_pair_sorted(s.last().0, s.last().1, spec_sort_pairs(s.drop_last()));
    }
}

/// Whether every pair carries the title of the entry at its position.
pub open spec fn spec_pairs_coherent(
    entries: Seq<MapEntry>,
    s: Seq<(Seq<char>, int)>,
) -> bool {
    forall|k: int| 0 <= k < s.len() ==> {
        let p = #[trigger] s[k];
        0 <= p.1 < entries.len() && p.0 == entries[p.1].desc.title@
    }
}

/// Insertion keeps pair coherence.
proof fn lemma_insert_coherent(
    entries: Seq<MapEntry>,
    t: Seq<char>,
    i: int,
    s: Seq<(Seq<char>, int)>,
)
    requires
        spec_pairs_coherent(entries, s),
        0 <= i < entries.len(),
        t == entries[i].desc.title@,
    ensures
        spec_pairs_coherent(entries, spec_insert_pair(t, i, s)),
    decreases s.len(),
{
    if s.len() == 0 {
    } else if spec_pair_le(t, i, s[0].0, s[0].1) {
        assert forall|k: int| 0 <= k < spec_insert_pair(t, i, s).len() implies {
            let p = #[trigger] spec_insert_pair(t, i, s)[k];
            0 <= p.1 < entries.len() && p.0 == entries[p.1].desc.title@
        } by {
            if k > 0 {
                assert(spec_insert_pair(t, i, s)[k] == s[k - 1]);
            }
        }
    } else {
        assert(spec_pairs_coherent(entries, s.skip(1)));
        lemma_insert_coherent(entries, t, i, s.skip(1));
        assert forall|k: int| 0 <= k < spec_insert_pair(t, i, s).len() implies {
            let p = #[trigger] spec_insert_pair(t, i, s)[k];
            0 <= p.1 < entries.len() && p.0 == entries[p.1].desc.title@
        } by {
            if k > 0 {
                assert(spec_insert_pair(t, i, s)[k]
                    == spec_insert_pair(t, i, s.skip(1))[k - 1]);
            }
        }
    }
}

/// Sorting keeps pair coherence.
proof fn lemma_sort_coherent(entries: Seq<MapEntry>, s: Seq<(Seq<char>, int)>)
    requires
        spec_pairs_coherent(entries, s),
    ensures
        spec_pairs_coherent(entries, spec_sort_pairs(s)),
    decreases s.len(),
{
    if s.len() > 0 {
        assert(spec_pairs_coherent(entries, s.drop_last()));
        lemma_sort_coherent(entries, s.drop_last());
        assert(0 <= s.last().1 < entries.len() && s.last().0
            == entries[s.last().1].desc.title@);
        lemma_insert_coherent(entries, s.last().0, s.last().1, spec_sort_pairs(s.drop_last()));
    }
}

/// The position where the new pair goes: the first held element it does
/// not come after.
fn find_insert_pos(r: &Vec<TitleIdx>, t: &TitleIdx) -> (pos: usize)
    ensures
        pos <= r@.len(),
        forall|j: int| 0 <= j < pos
            ==> !spec_pair_le(t.title@, t.idx as int, (#[trigger] pair_views(r@)[j]).0,
                pair_views(r@)[j].1),
        pos < r@.len() ==> spec_pair_le(t.title@, t.idx as int, pair_views(r@)[pos as int].0,
            pair_views(r@)[pos as int].1),
{
    let n = r.len();
    let mut pos: usize = 0;
    while pos < n
        invariant
            pos <= n == r@.len(),
            forall|j: int| 0 <= j < pos
                ==> !spec_pair_le(t.title@, t.idx as int, (#[trigger] pair_views(r@)[j]).0,
                    pair_views(r@)[j].1),
        decreases n - pos,
    {
        let lt = str_lt(t.title.as_str(), r[pos].title.as_str());
        let le = if lt {
            true
        } else {
            let eq = str_eq(t.title.as_str(), r[pos].title.as_str());
            eq && t.idx <= r[pos].idx
        };
        if le {
            return pos;
        }
        pos = pos + 1;
    }
    pos
}

/// Sorts the title/position pairs as the listing orders them.  Positions
/// below a bound stay below it.
fn sort_pairs(pairs: Vec<TitleIdx>, bound: usize) -> (r: Vec<TitleIdx>)
    requires
        forall|j: int| 0 <= j < pairs@.len() ==> (#[trigger] pairs@[j]).idx < bound,
    ensures
        pair_views(r@) == spec_sort_pairs(pair_views(pairs@)),
        forall|k: int| 0 <= k < r@.len() ==> (#[trigger] r@[k]).idx < bound,
{
    let mut r: Vec<TitleIdx> = Vec::new();
    let mut i: usize = 0;
    proof {
        assert(pair_views(pairs@).take(0) =~= Seq::<(Seq<char>, int)>::empty());
        assert(pair_views(r@) =~= Seq::<(Seq<char>, int)>::empty());
    }
    while i < pairs.len()
        invariant
            i <= pairs@.len(),
            forall|j: int| 0 <= j < pairs@.len() ==> (#[trigger] pairs@[j]).idx < bound,
            pair_views(r@) == spec_sort_pairs(pair_views(pairs@).take(i as int)),
            forall|k: int| 0 <= k < r@.len() ==> (#[trigger] r@[k]).idx < bound,
        decreases pairs@.len() - i,
    {
        let p = &pairs[i];
        let pos = find_insert_pos(&r, p);
        let ghost rv = pair_views(r@);
        let ghost rvec = r@;
        proof {
            lemma_insert_pair_at(p.title@, p.idx as int, rv, pos as int);
        }
        let entry = TitleIdx { title: p.title.clone(), idx: p.idx };
        r.insert(pos, entry);
        proof {
            assert(pair_views(r@) =~= rv.take(pos as int).add(seq![(p.title@, p.idx as int)])
                .add(rv.skip(pos as int)));
            assert(pair_views(pairs@).take(i + 1).drop_last() =~= pair_views(pairs@).take(
                i as int,
            ));
            assert(pair_views(pairs@).take(i + 1).last() == (p.title@, p.idx as int));
            assert(pair_views(r@) == spec_sort_pairs(pair_views(pairs@).take(i + 1)));
            assert forall|k: int| 0 <= k < r@.len() implies (#[trigger] r@[k]).idx < bound by {
                if k < pos {
                    assert(r@[k] == rvec[k]);
                } else if k > pos {
                    assert(r@[k] == rvec[k - 1]);
                }
            }
        }
        i = i + 1;
    }
    proof {
        assert(pair_views(pairs@).take(pairs@.len() as int) =~= pair_views(pairs@));
    }
    r
}

/// The title/position pairs of a node's entries, in entry order.
pub open spec fn spec_title_pairs(entries: Seq<MapEntry>) -> Seq<(Seq<char>, int)> {
    Seq::new(entries.len(), |i: int| (entries[i].desc.title@, i))
}

/// One listing line: the bare key text for an untitled entry,
/// `key - title` otherwise, each line ended by a newline.
pub open spec fn spec_line(entries: Seq<MapEntry>, p: (Seq<char>, int)) -> Seq<char> {
    if p.0.len() == 0 {
        entries[p.1].key@.add("\n"@)
    } else {
        entries[p.1].key@.add(" - "@).add(p.0).add("\n"@)
    }
}

/// The listing lines of the sorted pairs, in order.
pub open spec fn spec_lines(entries: Seq<MapEntry>, ps: Seq<(Seq<char>, int)>) -> Seq<char>
    decreases ps.len(),
{
    if ps.len() == 0 {
        Seq::<char>::empty()
    } else {
        spec_lines(entries, ps.drop_last()).add(spec_line(entries, ps.last()))
    }
}

/// The full overlay text of a node: the header, one line per entry sorted
/// by title with ties broken by entry position, trimmed of surrounding
/// whitespace.
pub open spec fn spec_overlay_text(entries: Seq<MapEntry>) -> Seq<char> {
    spec_trim("Next keys:\n\n"@.add(spec_lines(
        entries,
        spec_sort_pairs(spec_title_pairs(entries)),
    )))
}

/// Builds the overlay text for a node.
pub fn overlay_text(m: &crate::action::KeyMap) -> (r: String)
    ensures
        r@ == spec_overlay_text(m.entries@),
{
    let n = m.entries.len();
    let mut pairs: Vec<TitleIdx> = Vec::new();
    let mut i: usize = 0;
    proof {
        assert(pair_views(pairs@) =~= spec_title_pairs(m.entries@).take(0));
    }
    while i < n
        invariant
            i <= n == m.entries@.len(),
            pair_views(pairs@) =~= spec_title_pairs(m.entries@).take(i as int),
            forall|j: int| 0 <= j < pairs@.len() ==> (#[trigger] pairs@[j]).idx < n,
        decreases n - i,
    {
        let ghost pv = pairs@;
        pairs.push(TitleIdx { title: m.entries[i].desc.title.clone(), idx: i });
        proof {
            assert(pair_views(pairs@) =~= pair_views(pv).push(
                (m.entries@[i as int].desc.title@, i as int),
            ));
            assert(pair_views(pairs@) =~= spec_title_pairs(m.entries@).take(i + 1));
        }
        i = i + 1;
    }
    proof {
        assert(spec_title_pairs(m.entries@).take(n as int) =~= spec_title_pairs(m.entries@));
    }
    let sorted = sort_pairs(pairs, n);
    let ghost sv = spec_sort_pairs(spec_title_pairs(m.entries@));
    proof {
        assert(spec_pairs_coherent(m.entries@, spec_title_pairs(m.entries@)));
        lemma_sort_coherent(m.entries@, spec_title_pairs(m.entries@));
    }

    let mut text = String::new();
    text.append("Next keys:\n");
    text.append("\n");
    proof {
        assert("Next keys:\n"@.add("\n"@) =~= "Next keys:\n\n"@) by {
            reveal_strlit("Next keys:\n");
            reveal_strlit("\n");
            reveal_strlit("Next keys:\n\n");
        }
        assert(sv.take(0) =~= Seq::<(Seq<char>, int)>::empty());
    }
    let mut k: usize = 0;
    while k < sorted.len()
        invariant
            k <= sorted@.len(),
            pair_views(sorted@) == sv,
            spec_pairs_coherent(m.entries@, sv),
            forall|j: int| 0 <= j < sorted@.len() ==> (#[trigger] sorted@[j]).idx
                < m.entries@.len(),
            text@ == "Next keys:\n\n"@.add(spec_lines(m.entries@, sv.take(k as int))),
        decreases sorted@.len() - k,
    {
        let e = &m.entries[sorted[k].idx];
        let ghost tprev = text@;
        if e.desc.title.as_str().unicode_len() == 0 {
            text.append(e.key.as_str());
            text.append("\n");
        } else {
            text.append(e.key.as_str());
            text.append(" - ");
            text.append(e.desc.title.as_str());
            text.append("\n");
        }
        proof {
            assert(pair_views(sorted@)[k as int] == (sorted@[k as int].title@,
                sorted@[k as int].idx as int));
            assert(sv[k as int].0 == sorted@[k as int].title@);
            assert(sv[k as int].1 == sorted@[k as int].idx as int);
            assert(spec_pairs_coherent(m.entries@, sv));
            assert(sv[k as int].0 == m.entries@[sv[k as int].1].desc.title@);
            assert(e.desc.title@ == sv[k as int].0);
            assert(e.key@ == m.entries@[sv[k as int].1].key@);
            assert(text@ =~= tprev.add(spec_line(m.entries@, sv[k as int])));
            assert(sv.take(k + 1).drop_last() =~= sv.take(k as int));
            assert(sv.take(k + 1).last() == sv[k as int]);
            assert(text@ =~= "Next keys:\n\n"@.add(spec_lines(m.entries@, sv.take(k + 1))));
        }
        k = k + 1;
    }
    proof {
        assert(sv.take(sorted@.len() as int) =~= sv);
    }
    trim_str(text.as_str())
}

} // verus!
