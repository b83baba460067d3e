//! The fuzzy filter: which file names match a query, and in which order they
//! are shown.
use vstd::prelude::*;
use fuzzy_matcher::skim::SkimMatcherV2;
use fuzzy_matcher::FuzzyMatcher;
use crate::listing::{DirEntry, EntryKind, views};
use vstd::seq_lib::lemma_multiset_commutative;

verus! {

/// An entry as plain values: path, name and kind.
pub type EntryView = (Seq<char>, Seq<char>, EntryKind);

/// `c` folded to lower case where it is an ASCII capital.
pub open spec fn ascii_lower(c: char) -> int {
    if 'A' <= c && c <= 'Z' { c as int + 32 } else { c as int }
}

/// Whether a query character matches a name character: exactly when the
/// match respects case, else up to ASCII case.
pub open spec fn char_matches(a: char, b: char, case_sensitive: bool) -> bool {
    if case_sensitive { a == b } else { ascii_lower(a) == ascii_lower(b) }
}

/// Whether the query holds an ASCII capital; such a query matches with case
/// respected, any other ignoring ASCII case.
pub open spec fn has_upper(q: Seq<char>) -> bool {
    exists|i: int| 0 <= i < q.len() && 'A' <= #[trigger] q[i] && q[i] <= 'Z'
}

/// Whether the characters of `pattern` occur in `choice` in order.
pub open spec fn in_order(choice: Seq<char>, pattern: Seq<char>, case_sensitive: bool) -> bool
    decreases choice.len(),
{
    if pattern.len() == 0 {
        true
    } else if choice.len() == 0 {
        false
    } else if char_matches(choice[0], pattern[0], case_sensitive) {
        in_order(choice.drop_first(), pattern.drop_first(), case_sensitive)
    } else {
        in_order(choice.drop_first(), pattern, case_sensitive)
    }
}

/// The score that fuzzy-matcher's skim matcher gives a matching name.
pub uninterp spec fn skim_score(choice: Seq<char>, pattern: Seq<char>) -> i64;

/// The matcher's verdict on a name: its score where the query matches it.
pub open spec fn skim(choice: Seq<char>, pattern: Seq<char>) -> Option<i64> {
    if pattern.len() == 0 {
        Some(0)
    } else if in_order(choice, pattern, has_upper(pattern)) {
        Some(skim_score(choice, pattern))
    } else {
        None
    }
}

/// Relies on `SkimMatcherV2::fuzzy_match` with the default (smart case)
/// settings: an empty query scores 0; any other matches exactly when its
/// characters occur in the name in order, and then scores `skim_score`.
#[verifier::external_body]
fn fuzzy_score(choice: &str, pattern: &str) -> (r: Option<i64>)
    ensures
        pattern@.len() == 0 ==> r == Some(0i64),
        pattern@.len() > 0 && in_order(choice@, pattern@, has_upper(pattern@)) ==> r == Some(
            skim_score(choice@, pattern@),
        ),
        pattern@.len() > 0 && !in_order(choice@, pattern@, has_upper(pattern@)) ==> r is None,
{
    SkimMatcherV2::default().fuzzy_match(choice, pattern)
}

/// The entries that have a score, each paired with it, in their order.
pub open spec fn scored(files: Seq<EntryView>, scores: Seq<Option<i64>>) -> Seq<(EntryView, i64)>
    decreases files.len(),
{
    if files.len() == 0 || scores.len() == 0 {
        Seq::empty()
    } else {
        let rest = scored(files.drop_last(), scores.drop_last());
        match scores.last() {
            Some(s) => rest.push((files.last(), s)),
            None => rest,
        }
    }
}

/// Where the ranking loop puts a pair with score `s`: after every pair whose
/// score is at least `s`.
spec fn slot(r: Seq<(EntryView, i64)>, s: i64) -> int
    decreases r.len(),
{
    if r.len() == 0 {
        0
    } else if r.last().1 >= s {
        r.len() as int
    } else {
        slot(r.drop_last(), s)
    }
}

/// The order that the ranking loop builds.
spec fn ranked(s: Seq<(EntryView, i64)>) -> Seq<(EntryView, i64)>
    decreases s.len(),
{
    if s.len() == 0 {
        s
    } else {
        let r = ranked(s.drop_last());
        r.insert(slot(r, s.last().1), s.last())
    }
}

/// The entries of a ranking.
pub open spec fn firsts(s: Seq<(EntryView, i64)>) -> Seq<EntryView> {
    s.map_values(|p: (EntryView, i64)| p.0)
}

/// Pairs in non-increasing order of score.
pub open spec fn non_increasing(q: Seq<(EntryView, i64)>) -> bool {
    forall|i: int, j: int| 0 <= i < j < q.len() ==> (#[trigger] q[i]).1 >= (#[trigger] q[j]).1
}

/// `r` holds the entries that have a score, each once for each time it has
/// one, in non-increasing order of score.
pub open spec fn ranks(files: Seq<EntryView>, scores: Seq<Option<i64>>, r: Seq<EntryView>) -> bool {
    exists|q: Seq<(EntryView, i64)>|
        #[trigger] firsts(q) == r && q.to_multiset() == scored(files, scores).to_multiset() && non_increasing(q)
}

/// The matcher's verdict on each file's name.
pub open spec fn scores_for(files: Seq<EntryView>, query: Seq<char>) -> Seq<Option<i64>> {
    Seq::new(files.len(), |i: int| skim(files[i].1, query))
}

/// `r` is what the filter may show for `query`: every file, in order, where
/// the query is empty; else the files whose names match, in non-increasing
/// order of score.
pub open spec fn shows(files: Seq<EntryView>, query: Seq<char>, r: Seq<EntryView>) -> bool {
    if query.len() == 0 {
        r == files
    } else {
        ranks(files, scores_for(files, query), r)
    }
}

proof fn lemma_views_push(s: Seq<DirEntry>, e: DirEntry)
    ensures
        views(s.push(e)) == views(s).push(e@),
{
    assert(views(s.push(e)) =~= views(s).push(e@));
}

proof fn lemma_slot_bound(r: Seq<(EntryView, i64)>, s: i64)
    ensures
        0 <= slot(r, s) <= r.len(),
    decreases r.len(),
{
    if r.len() > 0 {
        lemma_slot_bound(r.drop_last(), s);
    }
}

proof fn lemma_insert_multiset(r: Seq<(EntryView, i64)>, p: int, x: (EntryView, i64))
    requires
        0 <= p <= r.len(),
    ensures
        r.insert(p, x).to_multiset() == r.to_multiset().insert(x),
{
    let pre = r.subrange(0, p);
    let post = r.subrange(p, r.len() as int);
    assert(r =~= pre + post);
    assert(r.insert(p, x) =~= pre.push(x) + post);
    lemma_multiset_commutative(pre, post);
    lemma_multiset_commutative(pre.push(x), post);
    broadcast use vstd::seq_lib::group_to_multiset_ensures;
}

proof fn lemma_ranked_perm(s: Seq<(EntryView, i64)>)
    ensures
        ranked(s).to_multiset() == s.to_multiset(),
    decreases s.len(),
{
    if s.len() > 0 {
        let r = ranked(s.drop_last());
        lemma_ranked_perm(s.drop_last());
        lemma_slot_bound(r, s.last().1);
        lemma_insert_multiset(r, slot(r, s.last().1), s.last());
        assert(s =~= s.drop_last().push(s.last()));
        broadcast use vstd::seq_lib::group_to_multiset_ensures;
    }
}

proof fn lemma_slot_split(r: Seq<(EntryView, i64)>, x: i64)
    requires
        non_increasing(r),
    ensures
        forall|j: int| 0 <= j < slot(r, x) ==> (#[trigger] r[j]).1 >= x,
        forall|j: int| slot(r, x) <= j < r.len() ==> (#[trigger] r[j]).1 < x,
    decreases r.len(),
{
    lemma_slot_bound(r, x);
    if r.len() > 0 {
        if r.last().1 >= x {
            assert forall|j: int| 0 <= j < slot(r, x) implies (#[trigger] r[j]).1 >= x by {
                if j < r.len() - 1 {
                    assert(r[j].1 >= r[r.len() - 1].1);
                }
            }
        } else {
            let d = r.drop_last();
            assert(non_increasing(d)) by {
                assert forall|i: int, j: int| 0 <= i < j < d.len() implies (#[trigger] d[i]).1 >= (#[trigger] d[j]).1 by {
                    assert(d[i] == r[i] && d[j] == r[j]);
                }
            }
            lemma_slot_split(d, x);
            assert forall|j: int| 0 <= j < slot(r, x) implies (#[trigger] r[j]).1 >= x by {
                assert(r[j] == d[j]);
            }
            assert forall|j: int| slot(r, x) <= j < r.len() implies (#[trigger] r[j]).1 < x by {
                if j < r.len() - 1 {
                    assert(r[j] == d[j]);
                }
            }
        }
    }
}

proof fn lemma_ranked_sorted(s: Seq<(EntryView, i64)>)
    ensures
        non_increasing(ranked(s)),
    decreases s.len(),
{
    if s.len() > 0 {
        let r = ranked(s.drop_last());
        let x = s.last();
        lemma_ranked_sorted(s.drop_last());
        lemma_slot_split(r, x.1);
        let p = slot(r, x.1);
        lemma_slot_bound(r, x.1);
        r.insert_ensures(p, x);
        let t = r.insert(p, x);
        assert forall|i: int, j: int| 0 <= i < j < t.len() implies (#[trigger] t[i]).1 >= (#[trigger] t[j]).1 by {
            if j < p {
                assert(t[i] == r[i] && t[j] == r[j]);
            } else if j == p {
                assert(t[i] == r[i]);
            } else if i < p {
                assert(t[i] == r[i] && t[j] == r[j - 1]);
            } else if i == p {
                assert(t[j] == r[j - 1]);
            } else {
                assert(t[i] == r[i - 1] && t[j] == r[j - 1]);
            }
        }
    }
}

/// Orders the entries that have a score by non-increasing score; entries
/// without a score are left out.
pub fn rank_by_score(files: &Vec<DirEntry>, scores: &Vec<Option<i64>>) -> (r: Vec<DirEntry>)
    requires
        files@.len() == scores@.len(),
    ensures
        ranks(views(files@), scores@, views(r@)),
{
    let mut out: Vec<(DirEntry, i64)> = Vec::new();
    let ghost pv = |p: (DirEntry, i64)| (p.0@, p.1);
    let mut i: usize = 0;
    proof {
        assert(out@.map_values(pv) =~= Seq::empty());
        assert(views(files@).subrange(0, 0) =~= Seq::empty());
    }
    while i < files.len()
        invariant
            i <= files@.len(),
            files@.len() == scores@.len(),
            pv == (|p: (DirEntry, i64)| (p.0@, p.1)),
            out@.map_values(pv) == ranked(scored(views(files@).subrange(0, i as int), scores@.subrange(0, i as int))),
        decreases files.len() - i,
    {
        let ghost prev = out@.map_values(pv);
        let ghost fv = views(files@);
        let ghost sc_prev = scored(fv.subrange(0, i as int), scores@.subrange(0, i as int));
        let ghost sc_next = scored(fv.subrange(0, i + 1), scores@.subrange(0, i + 1));
        proof {
            assert(fv.subrange(0, i + 1).drop_last() =~= fv.subrange(0, i as int));
            assert(scores@.subrange(0, i + 1).drop_last() =~= scores@.subrange(0, i as int));
            assert(fv.subrange(0, i + 1).last() == files@[i as int]@);
            assert(scores@.subrange(0, i + 1).last() == scores@[i as int]);
            match scores@[i as int] {
                Some(s) => {
                    assert(sc_next == sc_prev.push((files@[i as int]@, s)));
                    assert(sc_next.drop_last() =~= sc_prev);
                },
                None => {
                    assert(sc_next == sc_prev);
                },
            }
        }
        match scores[i] {
            None => {},
            Some(s) => {
                let mut j: usize = out.len();
                proof {
                    assert(prev.subrange(0, j as int) =~= prev);
                }
                while j > 0 && out[j - 1].1 < s
                    invariant
                        j <= out@.len(),
                        prev == out@.map_values(pv),
                        pv == (|p: (DirEntry, i64)| (p.0@, p.1)),
                        slot(prev, s) == slot(prev.subrange(0, j as int), s),
                    decreases j,
                {
                    proof {
                        assert(prev.subrange(0, j as int).drop_last() =~= prev.subrange(0, j - 1));
                    }
                    j = j - 1;
                }
                proof {
                    lemma_slot_bound(prev, s);
                }
                out.insert(j, (files[i].duplicate(), s));
                proof {
                    assert(out@.map_values(pv) =~= prev.insert(j as int, (files@[i as int]@, s)));
                    assert(ranked(sc_next) == ranked(sc_prev).insert(
                        slot(ranked(sc_prev), s),
                        (files@[i as int]@, s),
                    ));
                }
            },
        }
        i = i + 1;
    }
    proof {
        assert(views(files@).subrange(0, files@.len() as int) =~= views(files@));
        assert(scores@.subrange(0, files@.len() as int) =~= scores@);
    }
    let mut r: Vec<DirEntry> = Vec::new();
    let mut k: usize = 0;
    while k < out.len()
        invariant
            k <= out@.len(),
            pv == (|p: (DirEntry, i64)| (p.0@, p.1)),
            views(r@) == firsts(out@.map_values(pv)).subrange(0, k as int),
        decreases out.len() - k,
    {
        let ghost before = r@;
        let e = out[k].0.duplicate();
        r.push(e);
        proof {
            lemma_views_push(before, e);
            assert(views(r@) =~= firsts(out@.map_values(pv)).subrange(0, k + 1));
        }
        k = k + 1;
    }
    proof {
        assert(firsts(out@.map_values(pv)).subrange(0, out@.len() as int) =~= firsts(out@.map_values(pv)));
        let q = ranked(scored(views(files@), scores@));
        lemma_ranked_perm(scored(views(files@), scores@));
        lemma_ranked_sorted(scored(views(files@), scores@));
        assert(firsts(q) == views(r@));
    }
    r
}

/// The files that the query shows, by descending match score; every file,
/// in order, for an empty query.
pub fn filter_files(files: &Vec<DirEntry>, query: &str) -> (r: Vec<DirEntry>)
    ensures
        shows(views(files@), query@, views(r@)),
{
    if query.unicode_len() == 0 {
        let mut r: Vec<DirEntry> = Vec::new();
        let mut k: usize = 0;
        while k < files.len()
            invariant
                k <= files@.len(),
                views(r@) == views(files@).subrange(0, k as int),
            decreases files.len() - k,
        {
            let ghost before = r@;
            let e = files[k].duplicate();
            r.push(e);
            proof {
                lemma_views_push(before, e);
                assert(views(r@) =~= views(files@).subrange(0, k + 1));
            }
            k = k + 1;
        }
        proof {
            assert(views(files@).subrange(0, files@.len() as int) =~= views(files@));
        }
        return r;
    }
    let mut scores: Vec<Option<i64>> = Vec::new();
    let mut i: usize = 0;
    while i < files.len()
        invariant
            i <= files@.len(),
            scores@.len() == i,
            forall|j: int| 0 <= j < i ==> scores@[j] == skim(#[trigger] files@[j].name@, query@),
        decreases files.len() - i,
    {
        scores.push(fuzzy_score(files[i].name.as_str(), query));
        i = i + 1;
    }
    proof {
        let fv = views(files@);
        assert(scores@ =~= Seq::new(fv.len(), |i: int| skim(fv[i].1, query@)));
    }
    rank_by_score(files, &scores)
}

proof fn lemma_scored_member(files: Seq<EntryView>, scores: Seq<Option<i64>>, k: int)
    requires
        files.len() == scores.len(),
        0 <= k < scored(files, scores).len(),
    ensures
        exists|j: int|
            0 <= j < files.len() && files[j] == scored(files, scores)[k].0 && #[trigger] scores[j]
                == Some(scored(files, scores)[k].1),
    decreases files.len(),
{
    let rest = scored(files.drop_last(), scores.drop_last());
    if k < rest.len() {
        lemma_scored_member(files.drop_last(), scores.drop_last(), k);
        let j = choose|j: int|
            0 <= j < files.drop_last().len() && files.drop_last()[j] == rest[k].0
                && #[trigger] scores.drop_last()[j] == Some(rest[k].1);
        assert(scores[j] == scores.drop_last()[j]);
    } else {
        assert(scores[files.len() - 1] == scores.last());
    }
}

/// An empty query shows every file, in the order given.
pub proof fn lemma_empty_query_shows_all(files: Seq<EntryView>, r: Seq<EntryView>)
    requires
        shows(files, Seq::empty(), r),
    ensures
        r == files,
{
}

/// No file whose name lacks the query's characters in order (matched as the
/// filter matches them) is shown for that query.
pub proof fn lemma_unmatched_name_hidden(files: Seq<EntryView>, query: Seq<char>, name: Seq<char>, r: Seq<EntryView>)
    requires
        query.len() > 0,
        !in_order(name, query, has_upper(query)),
        shows(files, query, r),
    ensures
        forall|i: int| 0 <= i < r.len() ==> (#[trigger] r[i]).1 != name,
{
    let scores = scores_for(files, query);
    let sc = scored(files, scores);
    let q = choose|q: Seq<(EntryView, i64)>|
        #[trigger] firsts(q) == r && q.to_multiset() == sc.to_multiset() && non_increasing(q);
    assert forall|i: int| 0 <= i < r.len() implies (#[trigger] r[i]).1 != name by {
        broadcast use vstd::seq_lib::group_to_multiset_ensures;
        assert(r[i] == q[i].0);
        assert(q.contains(q[i]));
        assert(sc.to_multiset().count(q[i]) > 0);
        assert(sc.contains(q[i]));
        let k = choose|k: int| 0 <= k < sc.len() && sc[k] == q[i];
        lemma_scored_member(files, scores, k);
        let j = choose|j: int| 0 <= j < files.len() && files[j] == sc[k].0 && #[trigger] scores[j] == Some(sc[k].1);
        assert(skim(files[j].1, query) is Some);
    }
}

} // verus!
