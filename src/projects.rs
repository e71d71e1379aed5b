//! The per-user document that maps each project root to the identities
//! uploaded for it.

use vstd::prelude::*;
use crate::text::{chars_of, clone_strings, str_eq, string_of};

verus! {

/// One project root and its identities.
#[derive(Debug)]
pub struct ProjectEntry {
    pub root: String,
    pub ids: Vec<String>,
}

/// All known projects, at most one entry per root.
#[derive(Debug)]
pub struct ProjectIndex {
    pub entries: Vec<ProjectEntry>,
}

/// The identities recorded for `root` in `entries`, by the first entry for it.
pub open spec fn lookup(entries: Seq<(Seq<char>, Seq<Seq<char>>)>, root: Seq<char>) -> Option<Seq<Seq<char>>>
    decreases entries.len(),
{
    if entries.len() == 0 {
        None
    } else if entries[0].0 == root {
        Some(entries[0].1)
    } else {
        lookup(entries.drop_first(), root)
    }
}

impl ProjectEntry {
    pub open spec fn view(&self) -> (Seq<char>, Seq<Seq<char>>) {
        (self.root@, self.ids.deep_view())
    }
}

impl ProjectIndex {
    pub open spec fn view(&self) -> Seq<(Seq<char>, Seq<Seq<char>>)> {
        self.entries@.map_values(|e: ProjectEntry| e.view())
    }

    /// What the index records for `root`; a missing root has no identities.
    pub open spec fn ids_for(&self, root: Seq<char>) -> Seq<Seq<char>> {
        match lookup(self.view(), root) {
            Some(ids) => ids,
            None => seq![],
        }
    }

    /// No root has two entries.
    pub open spec fn wf(&self) -> bool {
        distinct_roots(self.view())
    }

    pub fn new() -> (r: ProjectIndex)
        ensures
            r.wf(),
            r.view().len() == 0,
            forall|root: Seq<char>| lookup(r.view(), root) is None,
    {
        let r = ProjectIndex { entries: Vec::new() };
        assert(r.view() =~= Seq::<(Seq<char>, Seq<Seq<char>>)>::empty());
        r
    }

    pub(crate) fn find(&self, root: &str) -> (r: Option<usize>)
        ensures
            match r {
                Some(i) => i < self.view().len() && self.view()[i as int].0 == root@ && forall|k: int|
                    0 <= k < i ==> self.view()[k].0 != root@,
                None => forall|k: int| 0 <= k < self.view().len() ==> self.view()[k].0 != root@,
            },
    {
        let mut i: usize = 0;
        while i < self.entries.len()
            invariant
                i <= self.entries@.len(),
                forall|k: int| 0 <= k < i ==> self.view()[k].0 != root@,
            decreases self.entries@.len() - i,
        {
            if str_eq(self.entries[i].root.as_str(), root) {
                return Some(i);
            }
            i += 1;
        }
        None
    }

    /// The identities recorded for `root`, empty when it has none.
    pub fn known_ids(&self, root: &str) -> (r: Vec<String>)
        ensures
            r.deep_view() == self.ids_for(root@),
    {
        match self.find(root) {
            Some(i) => {
                proof {
                    lemma_lookup_first(self.view(), root@, i as int);
                }
                clone_strings(&self.entries[i].ids)
            },
            None => {
                proof {
                    lemma_lookup_absent(self.view(), root@);
                }
                let r: Vec<String> = Vec::new();
                assert(r.deep_view() =~= Seq::<Seq<char>>::empty());
                r
            },
        }
    }

    /// Records `ids` for `root`, replacing what it had; other roots keep theirs.
    pub fn set_ids(&mut self, root: &str, ids: Vec<String>)
        ensures
            old(self).wf() ==> final(self).wf(),
            lookup(final(self).view(), root@) == Some(ids.deep_view()),
            forall|other: Seq<char>|
                other != root@ ==> lookup(final(self).view(), other) == lookup(old(self).view(), other),
    {
        let ghost dv = ids.deep_view();
        match self.find(root) {
            Some(i) => {
                let ghost before = self.view();
                let root_copy = self.entries[i].root.clone();
                self.entries.set(i, ProjectEntry { root: root_copy, ids });
                assert(self.view() =~= before.update(i as int, (root@, dv)));
                assert(forall|k: int| 0 <= k < before.len() ==> #[trigger] self.view()[k].0 == before[k].0);
                proof {
                    lemma_lookup_update(before, root@, i as int, dv);
                }
            },
            None => {
                let ghost before = self.view();
                let root_string = string_of(&chars_of(root));
                self.entries.push(ProjectEntry { root: root_string, ids });
                assert(self.view() =~= before.push((root@, dv)));
                proof {
                    lemma_lookup_push(before, root@, dv);
                }
            },
        }
    }
}

/// The first entry for a root decides its lookup.
pub proof fn lemma_lookup_first(s: Seq<(Seq<char>, Seq<Seq<char>>)>, root: Seq<char>, i: int)
    requires
        0 <= i < s.len(),
        s[i].0 == root,
        forall|k: int| 0 <= k < i ==> s[k].0 != root,
    ensures
        lookup(s, root) == Some(s[i].1),
    decreases i,
{
    if i > 0 {
        lemma_lookup_first(s.drop_first(), root, i - 1);
    }
}

/// A root without entries has nothing recorded.
pub proof fn lemma_lookup_absent(s: Seq<(Seq<char>, Seq<Seq<char>>)>, root: Seq<char>)
    requires
        forall|k: int| 0 <= k < s.len() ==> s[k].0 != root,
    ensures
        lookup(s, root) is None,
    decreases s.len(),
{
    if s.len() > 0 {
        lemma_lookup_absent(s.drop_first(), root);
    }
}

proof fn lemma_lookup_update(
    s: Seq<(Seq<char>, Seq<Seq<char>>)>,
    root: Seq<char>,
    i: int,
    ids: Seq<Seq<char>>,
)
    requires
        0 <= i < s.len(),
        s[i].0 == root,
        forall|k: int| 0 <= k < i ==> s[k].0 != root,
    ensures
        lookup(s.update(i, (root, ids)), root) == Some(ids),
        forall|other: Seq<char>|
            other != root ==> lookup(s.update(i, (root, ids)), other) == lookup(s, other),
    decreases i,
{
    let t = s.update(i, (root, ids));
    if i > 0 {
        lemma_lookup_update(s.drop_first(), root, i - 1, ids);
        assert(t.drop_first() =~= s.drop_first().update(i - 1, (root, ids)));
        assert(t[0] == s[0]);
        assert forall|other: Seq<char>| other != root implies lookup(t, other) == lookup(s, other) by {
            if s[0].0 != other {
                assert(lookup(t.drop_first(), other) == lookup(s.drop_first(), other));
            }
        }
    } else {
        assert forall|other: Seq<char>| other != root implies lookup(t, other) == lookup(s, other) by {
            assert(t.drop_first() =~= s.drop_first());
        }
    }
}

proof fn lemma_lookup_push(s: Seq<(Seq<char>, Seq<Seq<char>>)>, root: Seq<char>, ids: Seq<Seq<char>>)
    requires
        forall|k: int| 0 <= k < s.len() ==> s[k].0 != root,
    ensures
        lookup(s.push((root, ids)), root) == Some(ids),
        forall|other: Seq<char>| other != root ==> lookup(s.push((root, ids)), other) == lookup(s, other),
    decreases s.len(),
{
    let t = s.push((root, ids));
    if s.len() > 0 {
        lemma_lookup_push(s.drop_first(), root, ids);
        assert(t.drop_first() =~= s.drop_first().push((root, ids)));
        assert(t[0] == s[0]);
        assert forall|other: Seq<char>| other != root implies lookup(t, other) == lookup(s, other) by {
            if s[0].0 != other {
                assert(lookup(t.drop_first(), other) == lookup(s.drop_first(), other));
            }
        }
    } else {
        assert(t.drop_first() =~= Seq::<(Seq<char>, Seq<Seq<char>>)>::empty());
        assert forall|other: Seq<char>| other != root implies lookup(t, other) == lookup(s, other) by {
            assert(t[0].0 == root);
            assert(lookup(t.drop_first(), other) is None);
        }
    }
}

/// No two entries share a root.
pub open spec fn distinct_roots(v: Seq<(Seq<char>, Seq<Seq<char>>)>) -> bool {
    forall|i: int, j: int| 0 <= i < j < v.len() ==> v[i].0 != v[j].0
}

/// Looking up after appending `e`: what was there before, else `e` when it
/// is for that root.
pub proof fn lemma_lookup_append(
    s: Seq<(Seq<char>, Seq<Seq<char>>)>,
    e: (Seq<char>, Seq<Seq<char>>),
    root: Seq<char>,
)
    ensures
        lookup(s.push(e), root) == match lookup(s, root) {
            Some(v) => Some(v),
            None => if e.0 == root { Some(e.1) } else { None },
        },
    decreases s.len(),
{
    let t = s.push(e);
    if s.len() == 0 {
        assert(t[0] == e);
        assert(t.drop_first() =~= Seq::<(Seq<char>, Seq<Seq<char>>)>::empty());
        assert(lookup(t.drop_first(), root) is None);
        assert(lookup(s, root) is None);
    } else {
        assert(t[0] == s[0]);
        assert(t.drop_first() =~= s.drop_first().push(e));
        lemma_lookup_append(s.drop_first(), e, root);
        if s[0].0 != root {
            assert(lookup(t, root) == lookup(t.drop_first(), root));
            assert(lookup(s, root) == lookup(s.drop_first(), root));
        }
    }
}

/// A path with every `'\\'` turned into `'/'`.
pub open spec fn forward_slashed(p: Seq<char>) -> Seq<char> {
    p.map_values(|c: char| if c == '\\' { '/' } else { c })
}

/// Writes a path with forward slashes only.
pub fn to_forward_slashes(p: &str) -> (r: String)
    ensures
        r@ == forward_slashed(p@),
{
    let mut chars = chars_of(p);
    let mut i: usize = 0;
    while i < chars.len()
        invariant
            i <= chars@.len(),
            chars@.len() == p@.len(),
            forall|k: int| 0 <= k < i ==> chars@[k] == (if p@[k] == '\\' { '/' } else { p@[k] }),
            forall|k: int| i <= k < chars@.len() ==> chars@[k] == p@[k],
        decreases chars@.len() - i,
    {
        if chars[i] == '\\' {
            chars.set(i, '/');
        }
        i += 1;
    }
    assert(chars@ =~= forward_slashed(p@));
    string_of(&chars)
}

} // verus!
