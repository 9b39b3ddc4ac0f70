use vstd::prelude::*;

verus! {

/// One live window: its platform-assigned identity and the title it was given.
/// The native window and renderer handles that the entry stands for are owned
/// by the surrounding process; the registry is the single source of truth for
/// which windows are alive.
pub struct WindowEntry {
    pub identity: u64,
    pub title: String,
}

/// No two entries share an identity.
pub open spec fn distinct_ids(s: Seq<WindowEntry>) -> bool {
    forall|i: int, j: int| 0 <= i < j < s.len() ==> s[i].identity != s[j].identity
}

/// The mapping that a sequence of entries denotes, from identity to title.
pub open spec fn entries_map(s: Seq<WindowEntry>) -> Map<u64, Seq<char>>
    decreases s.len(),
{
    if s.len() == 0 {
        Map::empty()
    } else {
        entries_map(s.drop_last()).insert(s.last().identity, s.last().title@)
    }
}

pub proof fn lemma_entries_map_contains(s: Seq<WindowEntry>, id: u64)
    ensures
        entries_map(s).contains_key(id) <==> (exists|i: int|
            0 <= i < s.len() && s[i].identity == id),
    decreases s.len(),
{
    if s.len() == 0 {
    } else {
        lemma_entries_map_contains(s.drop_last(), id);
        if s.last().identity == id {
            assert(s[s.len() - 1].identity == id);
        } else {
            if exists|i: int| 0 <= i < s.len() && s[i].identity == id {
                let i = choose|i: int| 0 <= i < s.len() && s[i].identity == id;
                assert(s.drop_last()[i] == s[i]);
            }
            if exists|i: int| 0 <= i < s.drop_last().len() && s.drop_last()[i].identity == id {
                let i = choose|i: int| 0 <= i < s.drop_last().len() && s.drop_last()[i].identity
                    == id;
                assert(s[i].identity == id);
            }
        }
    }
}

pub proof fn lemma_entries_map_finite(s: Seq<WindowEntry>)
    ensures
        entries_map(s).dom().finite(),
    decreases s.len(),
{
    if s.len() == 0 {
    } else {
        lemma_entries_map_finite(s.drop_last());
    }
}

pub proof fn lemma_distinct_drop_last(s: Seq<WindowEntry>)
    requires
        distinct_ids(s),
        s.len() > 0,
    ensures
        distinct_ids(s.drop_last()),
{
    assert forall|i: int, j: int|
        0 <= i < j < s.drop_last().len() implies s.drop_last()[i].identity
        != s.drop_last()[j].identity by {
        assert(s.drop_last()[i] == s[i]);
        assert(s.drop_last()[j] == s[j]);
    }
}

pub proof fn lemma_entries_map_len(s: Seq<WindowEntry>)
    requires
        distinct_ids(s),
    ensures
        entries_map(s).len() == s.len(),
    decreases s.len(),
{
    if s.len() == 0 {
        assert(entries_map(s).dom() =~= Set::<u64>::empty());
    } else {
        lemma_distinct_drop_last(s);
        lemma_entries_map_len(s.drop_last());
        lemma_entries_map_finite(s.drop_last());
        lemma_entries_map_contains(s.drop_last(), s.last().identity);
        if exists|i: int|
            0 <= i < s.drop_last().len() && s.drop_last()[i].identity == s.last().identity {
            let i = choose|i: int|
                0 <= i < s.drop_last().len() && s.drop_last()[i].identity == s.last().identity;
            assert(s[i].identity == s[s.len() - 1].identity);
            assert(false);
        }
        assert(!entries_map(s.drop_last()).contains_key(s.last().identity));
    }
}

pub proof fn lemma_entries_map_get(s: Seq<WindowEntry>, i: int)
    requires
        distinct_ids(s),
        0 <= i < s.len(),
    ensures
        entries_map(s).contains_key(s[i].identity),
        entries_map(s)[s[i].identity] == s[i].title@,
    decreases s.len(),
{
    if i == s.len() - 1 {
    } else {
        lemma_distinct_drop_last(s);
        assert(s.drop_last()[i] == s[i]);
        lemma_entries_map_get(s.drop_last(), i);
        assert(s[i].identity != s.last().identity);
    }
}

pub proof fn lemma_entries_map_remove(s: Seq<WindowEntry>, i: int)
    requires
        distinct_ids(s),
        0 <= i < s.len(),
    ensures
        entries_map(s.remove(i)) == entries_map(s).remove(s[i].identity),
    decreases s.len(),
{
    let id = s[i].identity;
    if i == s.len() - 1 {
        assert(s.remove(i) =~= s.drop_last());
        lemma_distinct_drop_last(s);
        lemma_entries_map_contains(s.drop_last(), id);
        if exists|k: int| 0 <= k < s.drop_last().len() && s.drop_last()[k].identity == id {
            let k = choose|k: int| 0 <= k < s.drop_last().len() && s.drop_last()[k].identity == id;
            assert(s[k].identity == s[s.len() - 1].identity);
            assert(false);
        }
        assert(entries_map(s).remove(id) =~= entries_map(s.drop_last()));
    } else {
        lemma_distinct_drop_last(s);
        assert(s.drop_last()[i] == s[i]);
        lemma_entries_map_remove(s.drop_last(), i);
        assert(s.remove(i).drop_last() =~= s.drop_last().remove(i));
        assert(s.remove(i).last() == s.last());
        assert(s[i].identity != s.last().identity);
        assert(entries_map(s.remove(i)) =~= entries_map(s).remove(id));
    }
}

/// The window registry: the authoritative record of live windows. Its
/// mathematical content is a finite map from window identity to title.
pub struct Registry {
    pub entries: Vec<WindowEntry>,
}

impl View for Registry {
    type V = Map<u64, Seq<char>>;

    open spec fn view(&self) -> Map<u64, Seq<char>> {
        entries_map(self.entries@)
    }
}

impl Registry {
    /// Well-formedness: every live window has exactly one entry, so no two
    /// entries share an identity. Every constructor establishes this and
    /// every transition preserves it.
    pub open spec fn wf(self) -> bool {
        distinct_ids(self.entries@)
    }

    /// An empty registry.
    pub fn new() -> (r: Registry)
        ensures
            r.wf(),
            r@ == Map::<u64, Seq<char>>::empty(),
    {
        Registry { entries: Vec::new() }
    }

    fn index_of(&self, id: u64) -> (r: Option<usize>)
        ensures
            match r {
                Some(i) => i < self.entries@.len() && self.entries@[i as int].identity == id,
                None => forall|k: int|
                    0 <= k < self.entries@.len() ==> self.entries@[k].identity != id,
            },
    {
        let n = self.entries.len();
        let mut i: usize = 0;
        while i < n
            invariant
                n == self.entries@.len(),
                i <= n,
                forall|k: int| 0 <= k < i ==> self.entries@[k].identity != id,
            decreases n - i,
        {
            if self.entries[i].identity == id {
                return Some(i);
            }
            i = i + 1;
        }
        None
    }

    /// Whether `id` names a live window.
    pub fn contains(&self, id: u64) -> (r: bool)
        ensures
            r == self@.contains_key(id),
    {
        proof {
            lemma_entries_map_contains(self.entries@, id);
        }
        match self.index_of(id) {
            Some(_) => true,
            None => false,
        }
    }

    /// Record a newly created window. If `id` is already present its entry is
    /// replaced, so the registry behaves exactly as a map insertion.
    pub fn insert(&mut self, id: u64, title: String)
        requires
            old(self).wf(),
        ensures
            final(self).wf(),
            final(self)@ == old(self)@.insert(id, title@),
    {
        let ghost orig = self@;
        self.remove(id);
        proof {
            lemma_entries_map_contains(self.entries@, id);
        }
        let ghost prev = self.entries@;
        self.entries.push(WindowEntry { identity: id, title });
        proof {
            assert(self.entries@.drop_last() =~= prev);
            assert(forall|k: int| 0 <= k < prev.len() ==> prev[k].identity != id);
            assert(distinct_ids(self.entries@));
            assert(self@ == entries_map(prev).insert(id, self.entries@.last().title@));
            assert(orig.remove(id).insert(id, title@) =~= orig.insert(id, title@));
        }
    }

    /// Remove the entry for `id`, if any; the window is considered closed the
    /// instant this returns. Reports whether an entry was removed.
    pub fn remove(&mut self, id: u64) -> (removed: bool)
        requires
            old(self).wf(),
        ensures
            final(self).wf(),
            final(self)@ == old(self)@.remove(id),
            removed == old(self)@.contains_key(id),
    {
        proof {
            lemma_entries_map_contains(self.entries@, id);
        }
        match self.index_of(id) {
            Some(i) => {
                let ghost prev = self.entries@;
                self.entries.remove(i);
                proof {
                    lemma_entries_map_remove(prev, i as int);
                    assert forall|a: int, b: int|
                        0 <= a < b < self.entries@.len() implies self.entries@[a].identity
                        != self.entries@[b].identity by {
                        assert(self.entries@ =~= prev.remove(i as int));
                        if b < i {
                            assert(self.entries@[a] == prev[a]);
                            assert(self.entries@[b] == prev[b]);
                        } else if a < i {
                            assert(self.entries@[a] == prev[a]);
                            assert(self.entries@[b] == prev[b + 1]);
                        } else {
                            assert(self.entries@[a] == prev[a + 1]);
                            assert(self.entries@[b] == prev[b + 1]);
                        }
                    }
                }
                true
            },
            None => {
                proof {
                    assert(self@.remove(id) =~= self@);
                }
                false
            },
        }
    }

    /// Rename the window `id`, if it is live; a request for an identity that
    /// has already closed is a no-op. Reports whether the window was present.
    pub fn set_title(&mut self, id: u64, title: String) -> (present: bool)
        requires
            old(self).wf(),
        ensures
            final(self).wf(),
            present == old(self)@.contains_key(id),
            final(self)@ == (if old(self)@.contains_key(id) {
                old(self)@.insert(id, title@)
            } else {
                old(self)@
            }),
    {
        if self.contains(id) {
            self.insert(id, title);
            true
        } else {
            false
        }
    }

    /// The title of window `id`, if it is live.
    pub fn get_title(&self, id: u64) -> (r: Option<String>)
        requires
            self.wf(),
        ensures
            match r {
                Some(t) => self@.contains_key(id) && t@ == self@[id],
                None => !self@.contains_key(id),
            },
    {
        proof {
            lemma_entries_map_contains(self.entries@, id);
        }
        match self.index_of(id) {
            Some(i) => {
                proof {
                    lemma_entries_map_get(self.entries@, i as int);
                }
                Some(self.entries[i].title.clone())
            },
            None => None,
        }
    }

    /// The number of live windows.
    pub fn len(&self) -> (n: usize)
        requires
            self.wf(),
        ensures
            n == self@.len(),
            n == self.entries@.len(),
    {
        proof {
            lemma_entries_map_len(self.entries@);
        }
        self.entries.len()
    }

    /// Whether no window remains.
    pub fn is_empty(&self) -> (r: bool)
        requires
            self.wf(),
        ensures
            r == (self@.len() == 0),
            r == (self@ == Map::<u64, Seq<char>>::empty()),
    {
        proof {
            lemma_entries_map_len(self.entries@);
            if self.entries@.len() == 0 {
                assert(self@ == Map::<u64, Seq<char>>::empty());
            } else {
                lemma_entries_map_contains(self.entries@, self.entries@[0].identity);
                assert(self@.contains_key(self.entries@[0].identity));
                assert(!Map::<u64, Seq<char>>::empty().contains_key(self.entries@[0].identity));
            }
        }
        self.entries.len() == 0
    }
}

/// Registry invariant: a well-formed registry holds exactly one entry per
/// live window — an identity is in the map exactly when some entry carries
/// it, and no two entry positions carry the same identity.
pub proof fn lemma_one_entry_per_window(r: Registry, id: u64)
    requires
        r.wf(),
    ensures
        r@.contains_key(id) <==> (exists|i: int|
            0 <= i < r.entries@.len() && r.entries@[i].identity == id),
        forall|i: int, j: int|
            (0 <= i < r.entries@.len() && 0 <= j < r.entries@.len() && r.entries@[i].identity == id
                && r.entries@[j].identity == id) ==> i == j,
{
    lemma_entries_map_contains(r.entries@, id);
}

} // verus!
