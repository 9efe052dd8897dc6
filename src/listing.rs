use vstd::prelude::*;

verus! {

/// What a directory scan read of one child: its name, and its metadata where
/// that could be read.
#[derive(Debug)]
pub struct ScannedEntry {
    pub name: String,
    pub meta: Option<EntryMeta>,
}

#[derive(Clone, Copy, Debug)]
pub struct EntryMeta {
    pub is_dir: bool,
    pub size: u64,
}

/// A listed child as the protocol carries it.
#[derive(Debug)]
pub struct DirEntry {
    pub name: String,
    pub is_dir: bool,
}

/// A listed child as the client hands it to the user interface.
#[derive(Debug)]
pub struct GuiDirEntry {
    pub name: String,
    pub is_dir: bool,
}

/// A listed child of the local browser, with its size in bytes.
#[derive(Debug)]
pub struct LocalDirEntry {
    pub name: String,
    pub is_dir: bool,
    pub size: u64,
}

impl LocalDirEntry {
    pub fn name(&self) -> (r: &String)
        ensures
            r@ == self.name@,
    {
        &self.name
    }

    pub fn is_dir(&self) -> (r: bool)
        ensures
            r == self.is_dir,
    {
        self.is_dir
    }

    pub fn size(&self) -> (r: u64)
        ensures
            r == self.size,
    {
        self.size
    }
}

/// The children of a scan that are listed: those whose metadata was read,
/// as (name, is_dir), in scan order.
pub open spec fn listed(s: Seq<ScannedEntry>) -> Seq<(Seq<char>, bool)>
    decreases s.len(),
{
    if s.len() == 0 {
        Seq::empty()
    } else {
        let rest = listed(s.drop_last());
        match s.last().meta {
            Some(m) => rest.push((s.last().name@, m.is_dir)),
            None => rest,
        }
    }
}

/// A dotfile, which the local browser hides; `.` and `..` are kept.
pub open spec fn hidden(name: Seq<char>) -> bool {
    name.len() > 0 && name[0] == '.' && name != seq!['.'] && name != seq!['.', '.']
}

/// The children that the local browser shows: readable and not hidden, as
/// (name, is_dir, size), in scan order.
pub open spec fn shown(s: Seq<ScannedEntry>) -> Seq<(Seq<char>, bool, u64)>
    decreases s.len(),
{
    if s.len() == 0 {
        Seq::empty()
    } else {
        let rest = shown(s.drop_last());
        match s.last().meta {
            Some(m) => if hidden(s.last().name@) {
                rest
            } else {
                rest.push((s.last().name@, m.is_dir, m.size))
            },
            None => rest,
        }
    }
}

pub open spec fn dir_view(v: Seq<DirEntry>) -> Seq<(Seq<char>, bool)> {
    v.map_values(|e: DirEntry| (e.name@, e.is_dir))
}

pub open spec fn gui_view(v: Seq<GuiDirEntry>) -> Seq<(Seq<char>, bool)> {
    v.map_values(|e: GuiDirEntry| (e.name@, e.is_dir))
}

pub open spec fn local_view(v: Seq<LocalDirEntry>) -> Seq<(Seq<char>, bool, u64)> {
    v.map_values(|e: LocalDirEntry| (e.name@, e.is_dir, e.size))
}

fn is_hidden(name: &String) -> (r: bool)
    ensures
        r == hidden(name@),
{
    let n = name.unicode_len();
    if n == 0 || name.get_char(0) != '.' {
        return false;
    }
    if n == 1 {
        assert(name@ =~= seq!['.']);
        return false;
    }
    if n == 2 && name.get_char(1) == '.' {
        assert(name@ =~= seq!['.', '.']);
        return false;
    }
    assert(name@.len() != 1 && (name@.len() != 2 || name@[1] != '.'));
    assert(name@ != seq!['.']);
    assert(name@ != seq!['.', '.']);
    true
}

/// The entries of one directory level as the daemon answers them: every child
/// whose metadata was read, with its kind, in scan order; the others are
/// skipped rather than failing the call.
pub fn remote_entries(scanned: &Vec<ScannedEntry>) -> (r: Vec<DirEntry>)
    ensures
        dir_view(r@) == listed(scanned@),
{
    let mut out: Vec<DirEntry> = Vec::new();
    let mut i: usize = 0;
    while i < scanned.len()
        invariant
            i <= scanned@.len(),
            dir_view(out@) == listed(scanned@.subrange(0, i as int)),
        decreases scanned@.len() - i,
    {
        let e = &scanned[i];
        assert(scanned@.subrange(0, i + 1).drop_last() =~= scanned@.subrange(0, i as int));
        match e.meta {
            Some(m) => {
                out.push(DirEntry { name: e.name.clone(), is_dir: m.is_dir });
                assert(dir_view(out@) =~= listed(scanned@.subrange(0, i as int)).push((e.name@, m.is_dir)));
            },
            None => {},
        }
        i = i + 1;
    }
    assert(scanned@.subrange(0, scanned@.len() as int) =~= scanned@);
    out
}

/// The entries of one directory level as the local browser shows them: every
/// readable child that is not a dotfile, with its kind and size, in scan order.
pub fn local_entries(scanned: &Vec<ScannedEntry>) -> (r: Vec<LocalDirEntry>)
    ensures
        local_view(r@) == shown(scanned@),
{
    let mut out: Vec<LocalDirEntry> = Vec::new();
    let mut i: usize = 0;
    while i < scanned.len()
        invariant
            i <= scanned@.len(),
            local_view(out@) == shown(scanned@.subrange(0, i as int)),
        decreases scanned@.len() - i,
    {
        let e = &scanned[i];
        assert(scanned@.subrange(0, i + 1).drop_last() =~= scanned@.subrange(0, i as int));
        match e.meta {
            Some(m) => {
                if !is_hidden(&e.name) {
                    out.push(LocalDirEntry { name: e.name.clone(), is_dir: m.is_dir, size: m.size });
                    assert(local_view(out@) =~= shown(scanned@.subrange(0, i as int)).push(
                        (e.name@, m.is_dir, m.size),
                    ));
                }
            },
            None => {},
        }
        i = i + 1;
    }
    assert(scanned@.subrange(0, scanned@.len() as int) =~= scanned@);
    out
}

/// The daemon's entries as the client's user interface takes them, one for
/// one and in order.
pub fn gui_entries(entries: Vec<DirEntry>) -> (r: Vec<GuiDirEntry>)
    ensures
        gui_view(r@) == dir_view(entries@),
{
    let mut out: Vec<GuiDirEntry> = Vec::new();
    let mut i: usize = 0;
    while i < entries.len()
        invariant
            i <= entries@.len(),
            gui_view(out@) == dir_view(entries@.subrange(0, i as int)),
        decreases entries@.len() - i,
    {
        let e = &entries[i];
        let ghost before = out@;
        out.push(GuiDirEntry { name: e.name.clone(), is_dir: e.is_dir });
        assert(entries@.subrange(0, i + 1) =~= entries@.subrange(0, i as int).push(entries@[i as int]));
        assert(gui_view(out@) =~= gui_view(before).push((e.name@, e.is_dir)));
        assert(dir_view(entries@.subrange(0, i + 1)) =~= dir_view(entries@.subrange(0, i as int)).push(
            (e.name@, e.is_dir),
        ));
        i = i + 1;
    }
    assert(entries@.subrange(0, entries@.len() as int) =~= entries@);
    out
}

/// A pair is listed exactly when some child of the scan has that name, that
/// kind, and readable metadata.
pub proof fn lemma_listed_members(s: Seq<ScannedEntry>, x: (Seq<char>, bool))
    ensures
        listed(s).contains(x) <==> exists|i: int|
            0 <= i < s.len() && (#[trigger] s[i]).meta is Some && x == (s[i].name@, s[i].meta->0.is_dir),
    decreases s.len(),
{
    if s.len() > 0 {
        let p = s.drop_last();
        lemma_listed_members(p, x);
        if listed(s).contains(x) {
            match s.last().meta {
                Some(m) => {
                    if x != (s.last().name@, m.is_dir) {
                        let k = choose|k: int| 0 <= k < listed(s).len() && listed(s)[k] == x;
                        assert(listed(p)[k] == x);
                        let i = choose|i: int|
                            0 <= i < p.len() && (#[trigger] p[i]).meta is Some && x == (p[i].name@, p[i].meta->0.is_dir);
                        assert(s[i] == p[i]);
                    } else {
                        assert(s[s.len() - 1] == s.last());
                    }
                },
                None => {
                    let i = choose|i: int|
                        0 <= i < p.len() && (#[trigger] p[i]).meta is Some && x == (p[i].name@, p[i].meta->0.is_dir);
                    assert(s[i] == p[i]);
                },
            }
        } else {
            assert forall|i: int|
                0 <= i < s.len() && (#[trigger] s[i]).meta is Some implies x != (s[i].name@, s[i].meta->0.is_dir) by {
                if i < s.len() - 1 {
                    assert(s[i] == p[i]);
                    if x == (s[i].name@, s[i].meta->0.is_dir) {
                        assert(listed(p).contains(x));
                        let k = choose|k: int| 0 <= k < listed(p).len() && listed(p)[k] == x;
                        match s.last().meta {
                            Some(m) => assert(listed(s)[k] == x),
                            None => assert(listed(s)[k] == x),
                        }
                    }
                } else {
                    if x == (s[i].name@, s[i].meta->0.is_dir) {
                        assert(s[i] == s.last());
                        assert(listed(s)[listed(s).len() - 1] == x);
                    }
                }
            }
        }
    }
}

/// Listing does not depend on the order of the scan: two scans of an
/// unchanged directory that saw the same children list the same set.
pub proof fn listing_is_order_independent(a: Seq<ScannedEntry>, b: Seq<ScannedEntry>)
    requires
        a.to_set() == b.to_set(),
    ensures
        listed(a).to_set() == listed(b).to_set(),
{
    assert forall|x: (Seq<char>, bool)| listed(a).to_set().contains(x) <==> listed(b).to_set().contains(x) by {
        lemma_listed_members(a, x);
        lemma_listed_members(b, x);
        if listed(a).contains(x) {
            let i = choose|i: int| 0 <= i < a.len() && (#[trigger] a[i]).meta is Some && x == (a[i].name@, a[i].meta->0.is_dir);
            assert(a.to_set().contains(a[i]));
            assert(b.to_set().contains(a[i]));
            let j = choose|j: int| 0 <= j < b.len() && b[j] == a[i];
            assert(b[j].meta is Some);
        }
        if listed(b).contains(x) {
            let i = choose|i: int| 0 <= i < b.len() && (#[trigger] b[i]).meta is Some && x == (b[i].name@, b[i].meta->0.is_dir);
            assert(b.to_set().contains(b[i]));
            assert(a.to_set().contains(b[i]));
            let j = choose|j: int| 0 <= j < a.len() && a[j] == b[i];
            assert(a[j].meta is Some);
        }
    }
    assert(listed(a).to_set() =~= listed(b).to_set());
}

} // verus!
