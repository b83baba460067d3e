//! The directory lister: which children of a directory are shown, and in
//! which order.
use vstd::prelude::*;
use vstd::seq_lib::lemma_multiset_commutative;
use crate::text::{joined, parent_of, path_join, path_parent, lex_le, lemma_lex_total, lemma_lex_trans, starts_with_char, text_le, text_starts_with_char};

verus! {

/// What a directory entry is on disk.
#[derive(Clone, Copy, Debug, PartialEq, Eq, Structural)]
pub enum EntryKind {
    Dir,
    File,
    Other,
}

/// One entry of a directory as the file system reports it: its full path,
/// its final name, and its kind.
#[derive(Clone, Debug)]
pub struct DirEntry {
    pub path: String,
    pub name: String,
    pub kind: EntryKind,
}

impl DirEntry {
    pub open spec fn is_dir(&self) -> bool {
        self.kind == EntryKind::Dir
    }

    pub open spec fn is_file(&self) -> bool {
        self.kind == EntryKind::File
    }

    /// A copy of the entry with the same path, name and kind.
    pub fn duplicate(&self) -> (r: DirEntry)
        ensures
            r@ == self@,
    {
        DirEntry { path: self.path.clone(), name: self.name.clone(), kind: self.kind }
    }
}

/// An entry seen as plain values: path, name and kind.
impl View for DirEntry {
    type V = (Seq<char>, Seq<char>, EntryKind);

    open spec fn view(&self) -> Self::V {
        (self.path@, self.name@, self.kind)
    }
}

/// The entries as plain values.
pub open spec fn views(s: Seq<DirEntry>) -> Seq<(Seq<char>, Seq<char>, EntryKind)> {
    s.map_values(|e: DirEntry| e@)
}

/// Whether a name is hidden (begins with a dot).
pub open spec fn hidden(name: Seq<char>) -> bool {
    starts_with_char(name, '.')
}

/// Whether the main file list shows this entry of `root`'s walk.
pub open spec fn shown_in_files(root: Seq<char>, e: (Seq<char>, Seq<char>, EntryKind)) -> bool {
    e.0 != root && !hidden(e.1)
}

/// Directories come before everything else; within each group, names go in
/// character order (for entries of one directory, the order of their paths).
pub open spec fn listed_before(a: (Seq<char>, Seq<char>, EntryKind), b: (Seq<char>, Seq<char>, EntryKind)) -> bool {
    if (a.2 == EntryKind::Dir) != (b.2 == EntryKind::Dir) {
        a.2 == EntryKind::Dir
    } else {
        lex_le(a.1, b.1)
    }
}

/// A listing in display order.
pub open spec fn in_listing_order(s: Seq<(Seq<char>, Seq<char>, EntryKind)>) -> bool {
    forall|i: int, j: int| 0 <= i < j < s.len() ==> listed_before(#[trigger] s[i], #[trigger] s[j])
}

proof fn lemma_listed_before_total(a: (Seq<char>, Seq<char>, EntryKind), b: (Seq<char>, Seq<char>, EntryKind))
    ensures
        listed_before(a, b) || listed_before(b, a),
{
    lemma_lex_total(a.1, b.1);
}

proof fn lemma_listed_before_trans(
    a: (Seq<char>, Seq<char>, EntryKind),
    b: (Seq<char>, Seq<char>, EntryKind),
    c: (Seq<char>, Seq<char>, EntryKind),
)
    requires
        listed_before(a, b),
        listed_before(b, c),
    ensures
        listed_before(a, c),
{
    if (a.2 == EntryKind::Dir) == (b.2 == EntryKind::Dir) && (b.2 == EntryKind::Dir) == (c.2
        == EntryKind::Dir) {
        lemma_lex_trans(a.1, b.1, c.1);
    }
}

fn entry_before(a: &DirEntry, b: &DirEntry) -> (r: bool)
    ensures
        r == listed_before(a@, b@),
{
    let ad = a.kind == EntryKind::Dir;
    let bd = b.kind == EntryKind::Dir;
    if ad != bd {
        ad
    } else {
        text_le(a.name.as_str(), b.name.as_str())
    }
}

/// Puts `e` into an ordered listing, after every entry that may precede it.
fn insert_in_order(v: &mut Vec<DirEntry>, e: DirEntry)
    requires
        in_listing_order(views(old(v)@)),
    ensures
        in_listing_order(views(final(v)@)),
        views(final(v)@).to_multiset() == views(old(v)@).to_multiset().insert(e@),
{
    let ghost s = views(v@);
    let mut j: usize = v.len();
    while j > 0 && !entry_before(&v[j - 1], &e)
        invariant
            j <= v@.len(),
            v@ == old(v)@,
            s == views(v@),
            in_listing_order(s),
            forall|k: int| j <= k < s.len() ==> !listed_before(#[trigger] s[k], e@),
        decreases j,
    {
        j = j - 1;
    }
    proof {
        assert forall|k: int| j <= k < s.len() implies listed_before(e@, #[trigger] s[k]) by {
            lemma_listed_before_total(s[k], e@);
        }
        if j > 0 {
            assert forall|k: int| 0 <= k < j implies listed_before(#[trigger] s[k], e@) by {
                if k < j - 1 {
                    assert(listed_before(s[k], s[j - 1]));
                    lemma_listed_before_trans(s[k], s[j - 1], e@);
                }
            }
        }
    }
    v.insert(j, e);
    proof {
        let t = views(v@);
        assert(t =~= s.insert(j as int, e@));
        assert forall|a: int, b: int| 0 <= a < b < t.len() implies listed_before(#[trigger] t[a], #[trigger] t[b]) by {
            if a < j && b < j {
                assert(t[a] == s[a] && t[b] == s[b]);
            } else if a < j && b == j {
            } else if a < j {
                assert(t[b] == s[b - 1]);
                if a < b - 1 {
                    assert(t[a] == s[a]);
                }
            } else if a == j {
                assert(t[b] == s[b - 1]);
            } else {
                assert(t[a] == s[a - 1] && t[b] == s[b - 1]);
            }
        }
        let pre = s.subrange(0, j as int);
        let post = s.subrange(j as int, s.len() as int);
        assert(s =~= pre + post);
        assert(t =~= pre.push(e@) + post);
        lemma_multiset_commutative(pre, post);
        lemma_multiset_commutative(pre.push(e@), post);
        broadcast use vstd::seq_lib::group_to_multiset_ensures;
    }
}

/// The entries (as plain values) that `keep` admits, in their order.
pub open spec fn kept(items: Seq<DirEntry>, keep: spec_fn((Seq<char>, Seq<char>, EntryKind)) -> bool) -> Seq<(Seq<char>, Seq<char>, EntryKind)> {
    views(items).filter(keep)
}

/// Whether the file list shows the entry.
pub open spec fn files_keep(root: Seq<char>) -> spec_fn((Seq<char>, Seq<char>, EntryKind)) -> bool {
    |e: (Seq<char>, Seq<char>, EntryKind)| shown_in_files(root, e)
}

/// Whether the directory browser shows the entry (below its `..`).
pub open spec fn dirs_keep() -> spec_fn((Seq<char>, Seq<char>, EntryKind)) -> bool {
    |e: (Seq<char>, Seq<char>, EntryKind)| e.2 == EntryKind::Dir && !hidden(e.1)
}

/// Whether the template list shows the entry.
pub open spec fn templates_keep() -> spec_fn((Seq<char>, Seq<char>, EntryKind)) -> bool {
    |e: (Seq<char>, Seq<char>, EntryKind)| e.2 == EntryKind::File
}

/// Which entries a listing keeps.
enum Keep {
    /// The visible children of this root.
    Files(String),
    /// The visible sub-directories.
    Dirs,
}

spec fn keep_fn(k: Keep) -> spec_fn((Seq<char>, Seq<char>, EntryKind)) -> bool {
    match k {
        Keep::Files(root) => files_keep(root@),
        Keep::Dirs => dirs_keep(),
    }
}

fn keeps(k: &Keep, e: &DirEntry) -> (r: bool)
    ensures
        r == keep_fn(*k)(e@),
{
    match k {
        Keep::Files(root) => !text_starts_with_char(e.name.as_str(), '.') && !(e.path == *root),
        Keep::Dirs => e.kind == EntryKind::Dir && !text_starts_with_char(e.name.as_str(), '.'),
    }
}

/// The entries that `k` keeps, in listing order.
fn ordered(walk: &Vec<DirEntry>, k: &Keep) -> (r: Vec<DirEntry>)
    ensures
        in_listing_order(views(r@)),
        views(r@).to_multiset() == kept(walk@, keep_fn(*k)).to_multiset(),
        forall|i: int| 0 <= i < r@.len() ==> keep_fn(*k)(#[trigger] r@[i]@),
{
    let ghost f = keep_fn(*k);
    let mut out: Vec<DirEntry> = Vec::new();
    let mut i: usize = 0;
    proof {
        assert(views(out@) =~= Seq::empty());
        assert(walk@.subrange(0, 0) =~= Seq::empty());
        assert(views(walk@.subrange(0, 0)) =~= Seq::empty());
        assert(views(walk@.subrange(0, 0)).filter(f) =~= Seq::empty());
    }
    while i < walk.len()
        invariant
            i <= walk@.len(),
            f == keep_fn(*k),
            in_listing_order(views(out@)),
            views(out@).to_multiset() == kept(walk@.subrange(0, i as int), f).to_multiset(),
        decreases walk.len() - i,
    {
        let e = &walk[i];
        let keep = keeps(k, e);
        proof {
            assert(walk@.subrange(0, i + 1) =~= walk@.subrange(0, i as int).push(walk@[i as int]));
            assert(views(walk@.subrange(0, i + 1)) =~= views(walk@.subrange(0, i as int)).push(walk@[i as int]@));
            views(walk@.subrange(0, i as int)).lemma_filter_push(walk@[i as int]@, f);
        }
        if keep {
            insert_in_order(&mut out, e.duplicate());
        }
        proof {
            broadcast use vstd::seq_lib::group_to_multiset_ensures;
        }
        i = i + 1;
    }
    proof {
        assert(walk@.subrange(0, walk@.len() as int) =~= walk@);
        broadcast use vstd::seq_lib::group_to_multiset_ensures;
        assert forall|i: int| 0 <= i < out@.len() implies f(#[trigger] out@[i]@) by {
            let v = views(out@)[i];
            assert(views(out@).contains(v));
            assert(views(out@).to_multiset().count(v) > 0);
            assert(kept(walk@, f).contains(v));
        }
    }
    out
}

/// The file list of `root` out of the entries of a walk of depth one below
/// it (the walk may name `root` itself): its children whose names do not
/// begin with a dot, directories first, each group in name order.
pub fn load_files(root: &String, walk: Vec<DirEntry>) -> (r: Vec<DirEntry>)
    ensures
        in_listing_order(views(r@)),
        views(r@).to_multiset() == kept(walk@, files_keep(root@)).to_multiset(),
        forall|i: int| 0 <= i < r@.len() ==> shown_in_files(root@, #[trigger] r@[i]@),
{
    ordered(&walk, &Keep::Files(root.clone()))
}

/// The entry that leads from `dir` to its parent.
pub open spec fn up_entry(dir: Seq<char>) -> (Seq<char>, Seq<char>, EntryKind) {
    (joined(dir, seq!['.', '.']), seq!['.', '.'], EntryKind::Dir)
}

/// The directory browser's list for `dir`, out of the entries that reading
/// `dir` gave: first `..` where `dir` has a parent, then the sub-directories
/// whose names do not begin with a dot, in name order.
pub fn load_browser_entries(dir: &String, read: Vec<DirEntry>) -> (r: Vec<DirEntry>)
    ensures
        parent_of(dir@) is Some ==> r@.len() > 0 && r@[0]@ == up_entry(dir@),
        ({
            let rest = if parent_of(dir@) is Some { views(r@).drop_first() } else { views(r@) };
            &&& in_listing_order(rest)
            &&& rest.to_multiset() == kept(read@, dirs_keep()).to_multiset()
            &&& forall|i: int| 0 <= i < rest.len() ==> dirs_keep()(#[trigger] rest[i])
        }),
{
    let dirs = ordered(&read, &Keep::Dirs);
    match path_parent(dir.as_str()) {
        None => dirs,
        Some(_) => {
            let up = String::from_str("..");
            proof {
                reveal_strlit("..");
                assert(seq!['.', '.'] =~= ".."@);
            }
            let mut r: Vec<DirEntry> = Vec::new();
            r.push(DirEntry { path: path_join(dir.as_str(), up.as_str()), name: up, kind: EntryKind::Dir });
            let mut i: usize = 0;
            while i < dirs.len()
                invariant
                    i <= dirs@.len(),
                    r@.len() == i + 1,
                    r@[0]@ == up_entry(dir@),
                    forall|j: int| 0 <= j < i ==> r@[j + 1]@ == #[trigger] dirs@[j]@,
                decreases dirs.len() - i,
            {
                r.push(dirs[i].duplicate());
                i = i + 1;
            }
            proof {
                assert(views(r@).drop_first() =~= views(dirs@));
                assert(seq!['.', '.'] =~= ".."@);
            }
            r
        },
    }
}

/// The template list out of a walk of depth one below the template folder:
/// its files, in the order of the walk.
pub fn load_template_files(walk: Vec<DirEntry>) -> (r: Vec<DirEntry>)
    ensures
        views(r@) == kept(walk@, templates_keep()),
{
    let mut r: Vec<DirEntry> = Vec::new();
    let mut i: usize = 0;
    proof {
        assert(views(walk@.subrange(0, 0)).filter(templates_keep()) =~= Seq::empty());
        assert(views(r@) =~= Seq::empty());
    }
    while i < walk.len()
        invariant
            i <= walk@.len(),
            views(r@) == kept(walk@.subrange(0, i as int), templates_keep()),
        decreases walk.len() - i,
    {
        proof {
            assert(walk@.subrange(0, i + 1) =~= walk@.subrange(0, i as int).push(walk@[i as int]));
            assert(views(walk@.subrange(0, i + 1)) =~= views(walk@.subrange(0, i as int)).push(walk@[i as int]@));
            views(walk@.subrange(0, i as int)).lemma_filter_push(walk@[i as int]@, templates_keep());
        }
        if walk[i].kind == EntryKind::File {
            r.push(walk[i].duplicate());
            proof {
                assert(views(r@) =~= views(r@).drop_last().push(walk@[i as int]@));
            }
        }
        i = i + 1;
    }
    proof {
        assert(walk@.subrange(0, walk@.len() as int) =~= walk@);
    }
    r
}

} // verus!
