//! The rule file store: a name-indexed store of rule documents.
//!
//! The store is specified against its view, the finite map from names to
//! contents (`as_map`). Saving under an unsafe name (see `names`) is
//! rejected before anything is written, so a client-supplied name can never
//! escape the store.

use vstd::prelude::*;
use crate::names::{name_is_safe, safe_name};

verus! {

/// One stored rule document: a logical name and its serialized content.
pub struct StoredRule {
    pub name: String,
    pub content: String,
}

/// Why a save was refused.
#[derive(PartialEq, Eq, Structural)]
pub enum StoreError {
    /// The name is empty, contains a path separator or NUL, or is a
    /// relative directory segment.
    UnsafeName,
}

/// The map described by a sequence of entries; a later entry overrides an
/// earlier one with the same name.
pub open spec fn map_of(s: Seq<StoredRule>) -> Map<Seq<char>, Seq<char>>
    decreases s.len(),
{
    if s.len() == 0 {
        Map::empty()
    } else {
        map_of(s.drop_last()).insert(s.last().name@, s.last().content@)
    }
}

/// No two entries carry the same name.
pub open spec fn unique_names(s: Seq<StoredRule>) -> bool {
    forall|i: int, j: int| 0 <= i < j < s.len() ==> s[i].name@ != s[j].name@
}

/// A key is in the map exactly when some entry carries it.
pub proof fn lemma_map_of_contains(s: Seq<StoredRule>, k: Seq<char>)
    ensures
        map_of(s).contains_key(k) <==> (exists|i: int| 0 <= i < s.len() && s[i].name@ == k),
    decreases s.len(),
{
    if s.len() > 0 {
        lemma_map_of_contains(s.drop_last(), k);
        if s.last().name@ == k {
            assert(s[s.len() - 1].name@ == k);
        } else {
            if exists|i: int| 0 <= i < s.len() && s[i].name@ == k {
                let i = choose|i: int| 0 <= i < s.len() && s[i].name@ == k;
                assert(s.drop_last()[i].name@ == k);
            }
            if exists|i: int| 0 <= i < s.drop_last().len() && s.drop_last()[i].name@ == k {
                let i = choose|i: int| 0 <= i < s.drop_last().len() && s.drop_last()[i].name@ == k;
                assert(s[i].name@ == k);
            }
        }
    }
}

/// With unique names, the entry at any index gives the map's value at its
/// name.
pub proof fn lemma_map_of_index(s: Seq<StoredRule>, i: int)
    requires
        unique_names(s),
        0 <= i < s.len(),
    ensures
        map_of(s).contains_key(s[i].name@),
        map_of(s)[s[i].name@] == s[i].content@,
    decreases s.len(),
{
    if i < s.len() - 1 {
        assert(unique_names(s.drop_last()));
        lemma_map_of_index(s.drop_last(), i);
        assert(s.drop_last()[i] == s[i]);
        assert(s.last().name@ != s[i].name@);
    }
}

/// Replacing the entry that carries a name updates the map at that name.
pub proof fn lemma_map_of_update(s: Seq<StoredRule>, i: int, e: StoredRule)
    requires
        unique_names(s),
        0 <= i < s.len(),
        e.name@ == s[i].name@,
    ensures
        map_of(s.update(i, e)) == map_of(s).insert(e.name@, e.content@),
    decreases s.len(),
{
    let t = s.update(i, e);
    if i == s.len() - 1 {
        assert(t.drop_last() =~= s.drop_last());
        assert(t.last() == e);
        assert(map_of(t) =~= map_of(s).insert(e.name@, e.content@));
    } else {
        assert(unique_names(s.drop_last()));
        assert(t.drop_last() =~= s.drop_last().update(i, e));
        lemma_map_of_update(s.drop_last(), i, e);
        assert(t.last() == s.last());
        assert(s.last().name@ != e.name@);
        assert(map_of(t) =~= map_of(s).insert(e.name@, e.content@));
    }
}

/// Appending an entry inserts its name into the map.
pub proof fn lemma_map_of_push(s: Seq<StoredRule>, e: StoredRule)
    ensures
        map_of(s.push(e)) == map_of(s).insert(e.name@, e.content@),
{
    assert(s.push(e).drop_last() =~= s);
    assert(s.push(e).last() == e);
}

/// A name-indexed store of rule documents with unique names.
pub struct RuleStore {
    entries: Vec<StoredRule>,
}

impl RuleStore {
    /// The store's view: the map from names to contents.
    pub closed spec fn as_map(&self) -> Map<Seq<char>, Seq<char>> {
        map_of(self.entries@)
    }

    /// Well-formedness: entry names are unique.
    pub closed spec fn wf(&self) -> bool {
        unique_names(self.entries@)
    }

    /// An empty store.
    pub fn new() -> (s: RuleStore)
        ensures
            s.wf(),
            s.as_map() == Map::<Seq<char>, Seq<char>>::empty(),
    {
        RuleStore { entries: Vec::new() }
    }

    /// The index of the entry carrying `name`, if any.
    fn find(&self, name: &String) -> (r: Option<usize>)
        ensures
            match r {
                Some(i) => i < self.entries@.len() && self.entries@[i as int].name@ == name@,
                None => forall|i: int|
                    0 <= i < self.entries@.len() ==> self.entries@[i].name@ != name@,
            },
    {
        let mut i: usize = 0;
        while i < self.entries.len()
            invariant
                0 <= i <= self.entries@.len(),
                forall|j: int| 0 <= j < i ==> self.entries@[j].name@ != name@,
            decreases self.entries@.len() - i,
        {
            if self.entries[i].name == *name {
                return Some(i);
            }
            i = i + 1;
        }
        None
    }

    /// Saves `content` under `name`, overwriting silently when the name is
    /// already present; an unsafe name is rejected and the store is left
    /// unchanged.
    pub fn save(&mut self, name: String, content: String) -> (r: Result<(), StoreError>)
        requires
            old(self).wf(),
        ensures
            final(self).wf(),
            match r {
                Ok(()) => safe_name(name@) && final(self).as_map() == old(self).as_map().insert(
                    name@,
                    content@,
                ),
                Err(e) => e == StoreError::UnsafeName && !safe_name(name@) && final(self).as_map()
                    == old(self).as_map(),
            },
    {
        if !name_is_safe(name.as_str()) {
            return Err(StoreError::UnsafeName);
        }
        match self.find(&name) {
            Some(i) => {
                proof {
                    lemma_map_of_update(self.entries@, i as int, StoredRule { name, content });
                }
                self.entries[i] = StoredRule { name, content };
                assert(unique_names(self.entries@));
            },
            None => {
                proof {
                    lemma_map_of_push(self.entries@, StoredRule { name, content });
                }
                self.entries.push(StoredRule { name, content });
                assert(unique_names(self.entries@));
            },
        }
        Ok(())
    }

    /// Returns the content saved under `name`, verbatim, or `None` when the
    /// name was never saved.
    pub fn load(&self, name: &String) -> (r: Option<&String>)
        requires
            self.wf(),
        ensures
            match r {
                Some(c) => self.as_map().contains_key(name@) && c@ == self.as_map()[name@],
                None => !self.as_map().contains_key(name@),
            },
    {
        proof {
            lemma_map_of_contains(self.entries@, name@);
        }
        match self.find(name) {
            Some(i) => {
                proof {
                    lemma_map_of_index(self.entries@, i as int);
                }
                Some(&self.entries[i].content)
            },
            None => None,
        }
    }

    /// Whether `name` is currently saved.
    pub fn contains(&self, name: &String) -> (b: bool)
        requires
            self.wf(),
        ensures
            b == self.as_map().contains_key(name@),
    {
        self.load(name).is_some()
    }

    /// Enumerates the stored names: each exactly once, in no promised
    /// order.
    pub fn list(&self) -> (names: Vec<String>)
        requires
            self.wf(),
        ensures
            forall|i: int| 0 <= i < names@.len() ==> self.as_map().contains_key(names@[i]@),
            forall|k: Seq<char>| self.as_map().contains_key(k) ==> exists|i: int|
                0 <= i < names@.len() && names@[i]@ == k,
            forall|i: int, j: int| 0 <= i < j < names@.len() ==> names@[i]@ != names@[j]@,
            listed_names(names@) == self.as_map().dom(),
    {
        let mut names: Vec<String> = Vec::new();
        let mut i: usize = 0;
        while i < self.entries.len()
            invariant
                self.wf(),
                0 <= i <= self.entries@.len(),
                names@.len() == i,
                forall|j: int| 0 <= j < i ==> names@[j]@ == self.entries@[j].name@,
            decreases self.entries@.len() - i,
        {
            names.push(self.entries[i].name.clone());
            i = i + 1;
        }
        proof {
            assert forall|i2: int| 0 <= i2 < names@.len() implies self.as_map().contains_key(
                names@[i2]@,
            ) by {
                lemma_map_of_index(self.entries@, i2);
            }
            assert forall|k: Seq<char>| self.as_map().contains_key(k) implies exists|i2: int|
                0 <= i2 < names@.len() && names@[i2]@ == k by {
                lemma_map_of_contains(self.entries@, k);
                let i2 = choose|i2: int|
                    0 <= i2 < self.entries@.len() && self.entries@[i2].name@ == k;
                assert(names@[i2]@ == k);
            }
            assert(listed_names(names@) =~= self.as_map().dom());
        }
        names
    }
}

/// The set of names a listing holds.
pub open spec fn listed_names(ns: Seq<String>) -> Set<Seq<char>> {
    Set::new(|k: Seq<char>| exists|i: int| 0 <= i < ns.len() && ns[i]@ == k)
}

/// Round trip: a store left by a successful save of `c` under `n` loads
/// exactly `c` back under `n`. `post.as_map()` is the view `save` ensures;
/// `load` returns the view's value at `n`.
pub proof fn lemma_save_load_round_trip(
    pre: RuleStore,
    post: RuleStore,
    n: Seq<char>,
    c: Seq<char>,
)
    requires
        post.as_map() == pre.as_map().insert(n, c),
    ensures
        post.as_map().contains_key(n),
        post.as_map()[n] == c,
{
}

/// Idempotence of save: saving the same content under the same name a
/// second time leaves the store's view unchanged.
pub proof fn lemma_save_idempotent(m: Map<Seq<char>, Seq<char>>, n: Seq<char>, c: Seq<char>)
    ensures
        m.insert(n, c).insert(n, c) == m.insert(n, c),
{
    assert(m.insert(n, c).insert(n, c) =~= m.insert(n, c));
}

/// Idempotence of list: with no intervening saves, two listings of one
/// store name the same set of names, whatever order each returns them in.
pub proof fn lemma_list_stable(s: RuleStore, ns1: Seq<String>, ns2: Seq<String>)
    requires
        listed_names(ns1) == s.as_map().dom(),
        listed_names(ns2) == s.as_map().dom(),
    ensures
        listed_names(ns1) == listed_names(ns2),
{
}

/// Saves under distinct names do not interfere: after saving under `n1`
/// and then under `n2 != n1`, in either interleaving of two requests, both
/// contents are present and a listing's set holds both names.
pub proof fn lemma_distinct_saves_preserved(
    m: Map<Seq<char>, Seq<char>>,
    n1: Seq<char>,
    c1: Seq<char>,
    n2: Seq<char>,
    c2: Seq<char>,
)
    requires
        n1 != n2,
    ensures
        m.insert(n1, c1).insert(n2, c2).contains_key(n1),
        m.insert(n1, c1).insert(n2, c2)[n1] == c1,
        m.insert(n1, c1).insert(n2, c2).contains_key(n2),
        m.insert(n1, c1).insert(n2, c2)[n2] == c2,
        m.insert(n1, c1).insert(n2, c2).dom().contains(n1),
        m.insert(n1, c1).insert(n2, c2).dom().contains(n2),
{
}

} // verus!
