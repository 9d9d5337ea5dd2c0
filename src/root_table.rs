use vstd::prelude::*;

use crate::artifact::{same_text, text};
use crate::fs_types::FileAttr;

verus! {

/// A file-table entry: attributes and the block range they describe.
#[derive(Debug, Clone)]
pub struct RootEntry {
    pub attr: FileAttr,
    pub start_block: u32,
    pub block_count: u32,
}

pub open spec fn has_name(s: Seq<RootEntry>, name: Seq<char>) -> bool {
    exists|i: int| 0 <= i < s.len() && #[trigger] s[i].attr.name@ == name
}

/// No two entries share a name.
pub open spec fn names_unique(s: Seq<RootEntry>) -> bool {
    forall|i: int, j: int|
        0 <= i < s.len() && 0 <= j < s.len() && i != j ==> #[trigger] s[i].attr.name@
            != #[trigger] s[j].attr.name@
}

/// The entry of `s` called `name` (the unique one, when names are unique).
pub open spec fn entry_named(s: Seq<RootEntry>, name: Seq<char>) -> RootEntry {
    s[choose|i: int| 0 <= i < s.len() && #[trigger] s[i].attr.name@ == name]
}

/// The entries of `s` keyed by name.
pub open spec fn table_map(s: Seq<RootEntry>) -> Map<Seq<char>, RootEntry> {
    Map::new(|name: Seq<char>| has_name(s, name), |name: Seq<char>| entry_named(s, name))
}

proof fn lemma_entry_named_at(s: Seq<RootEntry>, i: int)
    requires
        names_unique(s),
        0 <= i < s.len(),
    ensures
        has_name(s, s[i].attr.name@),
        entry_named(s, s[i].attr.name@) == s[i],
{
    let name = s[i].attr.name@;
    assert(s[i].attr.name@ == name);
    let j = choose|j: int| 0 <= j < s.len() && #[trigger] s[j].attr.name@ == name;
    assert(s[j].attr.name@ == name);
}

proof fn lemma_map_push(s: Seq<RootEntry>, e: RootEntry)
    requires
        names_unique(s),
        !has_name(s, e.attr.name@),
    ensures
        names_unique(s.push(e)),
        table_map(s.push(e)) == table_map(s).insert(e.attr.name@, e),
{
    let t = s.push(e);
    assert forall|i: int, j: int|
        0 <= i < t.len() && 0 <= j < t.len() && i != j implies #[trigger] t[i].attr.name@
        != #[trigger] t[j].attr.name@ by {
        if i < s.len() && j < s.len() {
            assert(s[i] == t[i] && s[j] == t[j]);
        } else if i < s.len() {
            assert(s[i].attr.name@ == t[i].attr.name@);
        } else {
            assert(s[j].attr.name@ == t[j].attr.name@);
        }
    }
    let m = table_map(s).insert(e.attr.name@, e);
    assert forall|n: Seq<char>| #[trigger] table_map(t).dom().contains(n) == m.dom().contains(n)
        by {
        if has_name(t, n) {
            let i = choose|i: int| 0 <= i < t.len() && #[trigger] t[i].attr.name@ == n;
            if i < s.len() {
                assert(s[i].attr.name@ == n);
            }
        }
        if has_name(s, n) {
            let i = choose|i: int| 0 <= i < s.len() && #[trigger] s[i].attr.name@ == n;
            assert(t[i].attr.name@ == n);
        }
        if n == e.attr.name@ {
            assert(t[s.len() as int].attr.name@ == n);
        }
    }
    assert forall|n: Seq<char>| #[trigger] m.dom().contains(n) implies table_map(t)[n] == m[n] by {
        if n == e.attr.name@ {
            lemma_entry_named_at(t, s.len() as int);
        } else {
            let i = choose|i: int| 0 <= i < s.len() && #[trigger] s[i].attr.name@ == n;
            lemma_entry_named_at(s, i);
            assert(t[i] == s[i]);
            lemma_entry_named_at(t, i);
        }
    }
    assert(table_map(t) =~= m);
}

proof fn lemma_map_remove(s: Seq<RootEntry>, i: int)
    requires
        names_unique(s),
        0 <= i < s.len(),
    ensures
        names_unique(s.remove(i)),
        table_map(s.remove(i)) == table_map(s).remove(s[i].attr.name@),
{
    let t = s.remove(i);
    let gone = s[i].attr.name@;
    assert forall|a: int, b: int|
        0 <= a < t.len() && 0 <= b < t.len() && a != b implies #[trigger] t[a].attr.name@
        != #[trigger] t[b].attr.name@ by {
        let a2 = if a < i {
            a
        } else {
            a + 1
        };
        let b2 = if b < i {
            b
        } else {
            b + 1
        };
        assert(t[a] == s[a2] && t[b] == s[b2]);
    }
    let m = table_map(s).remove(gone);
    assert forall|n: Seq<char>| #[trigger] table_map(t).dom().contains(n) == m.dom().contains(n)
        by {
        if has_name(t, n) {
            let a = choose|a: int| 0 <= a < t.len() && #[trigger] t[a].attr.name@ == n;
            let a2 = if a < i {
                a
            } else {
                a + 1
            };
            assert(s[a2].attr.name@ == n);
        }
        if has_name(s, n) && n != gone {
            let a = choose|a: int| 0 <= a < s.len() && #[trigger] s[a].attr.name@ == n;
            if a < i {
                assert(t[a].attr.name@ == n);
            } else {
                assert(t[a - 1].attr.name@ == n);
            }
        }
    }
    assert forall|n: Seq<char>| #[trigger] m.dom().contains(n) implies table_map(t)[n] == m[n] by {
        let a = choose|a: int| 0 <= a < s.len() && #[trigger] s[a].attr.name@ == n;
        lemma_entry_named_at(s, a);
        let a1 = if a < i {
            a
        } else {
            a - 1
        };
        assert(t[a1] == s[a]);
        lemma_entry_named_at(t, a1);
    }
    assert(table_map(t) =~= m);
}

/// Name-keyed table of file entries, in order of creation.
#[derive(Debug)]
pub struct RootTable {
    entries: Vec<RootEntry>,
}

impl View for RootTable {
    type V = Map<Seq<char>, RootEntry>;

    open spec fn view(&self) -> Map<Seq<char>, RootEntry> {
        table_map(self.spec_entries())
    }
}

impl RootTable {
    pub closed spec fn spec_entries(&self) -> Seq<RootEntry> {
        self.entries@
    }

    /// Names are unique.
    pub open spec fn wf(&self) -> bool {
        names_unique(self.spec_entries())
    }

    pub fn new() -> (r: Self)
        ensures
            r.wf(),
            r@ == Map::<Seq<char>, RootEntry>::empty(),
    {
        let r = RootTable { entries: Vec::new() };
        assert(r@ =~= Map::<Seq<char>, RootEntry>::empty());
        r
    }

    fn position(&self, name: &str) -> (r: Option<usize>)
        requires
            self.wf(),
        ensures
            match r {
                Some(i) => i < self.spec_entries().len() && self.spec_entries()[i as int].attr.name@
                    == name@,
                None => !has_name(self.spec_entries(), name@),
            },
    {
        let mut i: usize = 0;
        while i < self.entries.len()
            invariant
                i <= self.entries@.len(),
                forall|j: int| 0 <= j < i ==> #[trigger] self.entries@[j].attr.name@ != name@,
            decreases self.entries@.len() - i,
        {
            if same_text(self.entries[i].attr.name.as_str(), name) {
                return Some(i);
            }
            i = i + 1;
        }
        None
    }

    /// Adds `entry` under its name; fails, changing nothing, when the name is taken.
    pub fn create(&mut self, entry: RootEntry) -> (r: Result<(), String>)
        requires
            old(self).wf(),
        ensures
            final(self).wf(),
            match r {
                Ok(()) => {
                    &&& !old(self)@.dom().contains(entry.attr.name@)
                    &&& final(self)@ == old(self)@.insert(entry.attr.name@, entry)
                    &&& final(self).spec_entries() == old(self).spec_entries().push(entry)
                },
                Err(m) => {
                    &&& old(self)@.dom().contains(entry.attr.name@)
                    &&& m@ == "File already exists"@
                    &&& final(self).spec_entries() == old(self).spec_entries()
                },
            },
    {
        match self.position(entry.attr.name.as_str()) {
            Some(i) => {
                assert(self.spec_entries()[i as int].attr.name@ == entry.attr.name@);
                Err(text("File already exists"))
            },
            None => {
                proof {
                    lemma_map_push(self.entries@, entry);
                }
                self.entries.push(entry);
                Ok(())
            },
        }
    }

    /// The entry called `name`, if any.
    pub fn get(&self, name: &str) -> (r: Option<&RootEntry>)
        requires
            self.wf(),
        ensures
            match r {
                Some(e) => self@.dom().contains(name@) && self@[name@] == *e,
                None => !self@.dom().contains(name@),
            },
    {
        match self.position(name) {
            Some(i) => {
                proof {
                    lemma_entry_named_at(self.entries@, i as int);
                }
                Some(&self.entries[i])
            },
            None => None,
        }
    }

    /// Removes and returns the entry called `name`, if any; the others keep their order.
    pub fn delete(&mut self, name: &str) -> (r: Option<RootEntry>)
        requires
            old(self).wf(),
        ensures
            final(self).wf(),
            final(self)@ == old(self)@.remove(name@),
            match r {
                Some(e) => old(self)@.dom().contains(name@) && old(self)@[name@] == e,
                None => !old(self)@.dom().contains(name@),
            },
    {
        match self.position(name) {
            Some(i) => {
                proof {
                    lemma_entry_named_at(self.entries@, i as int);
                    lemma_map_remove(self.entries@, i as int);
                }
                Some(self.entries.remove(i))
            },
            None => {
                assert(self@ =~= self@.remove(name@));
                None
            },
        }
    }

    /// Every entry, in order of creation.
    pub fn list(&self) -> (r: &[RootEntry])
        ensures
            r@ == self.spec_entries(),
    {
        self.entries.as_slice()
    }
}

} // verus!
