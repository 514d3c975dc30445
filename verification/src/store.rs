//! An in-memory key-value table of stored items, keyed by item id.
//!
//! The table is the library's model of the backing store: one item per
//! id, last write wins, reads report the item or its absence. Its
//! contents are abstracted as a map from id to stored image.

use vstd::prelude::*;
use crate::model::{ToDoResponse, ToDoResponseV};

verus! {

/// Relies on `str`'s `==`: true exactly when the two strings hold the
/// same characters.
#[verifier::external_body]
fn str_eq(a: &str, b: &str) -> (r: bool)
    ensures
        r == (a@ == b@),
{
    a == b
}

/// No key occurs twice among the entries.
spec fn dup_free(s: Seq<(String, ToDoResponse)>) -> bool {
    forall|i: int, j: int| 0 <= i < j < s.len() ==> s[i].0@ != s[j].0@
}

/// The entries read as a map from key to stored image; a later entry
/// wins over an earlier one with the same key.
spec fn map_of(s: Seq<(String, ToDoResponse)>) -> Map<Seq<char>, ToDoResponseV>
    decreases s.len(),
{
    if s.len() == 0 {
        Map::<Seq<char>, ToDoResponseV>::empty()
    } else {
        map_of(s.drop_last()).insert(s.last().0@, s.last().1@)
    }
}

proof fn lemma_map_of_get(s: Seq<(String, ToDoResponse)>, key: Seq<char>)
    requires
        dup_free(s),
    ensures
        map_of(s).contains_key(key) <==> (exists|i: int| 0 <= i < s.len() && s[i].0@ == key),
        forall|i: int| 0 <= i < s.len() && s[i].0@ == key ==> map_of(s)[key] == s[i].1@,
    decreases s.len(),
{
    if s.len() > 0 {
        assert(dup_free(s.drop_last()));
        lemma_map_of_get(s.drop_last(), key);
        if s.last().0@ == key {
            assert(s[s.len() - 1].0@ == key);
        } else {
            if map_of(s).contains_key(key) {
                let i = choose|i: int| 0 <= i < s.drop_last().len() && s.drop_last()[i].0@ == key;
                assert(s[i].0@ == key);
            }
            if exists|i: int| 0 <= i < s.len() && s[i].0@ == key {
                let i = choose|i: int| 0 <= i < s.len() && s[i].0@ == key;
                assert(i < s.len() - 1);
                assert(s.drop_last()[i].0@ == key);
            }
        }
    }
}

proof fn lemma_map_of_push(s: Seq<(String, ToDoResponse)>, e: (String, ToDoResponse))
    ensures
        map_of(s.push(e)) == map_of(s).insert(e.0@, e.1@),
{
    assert(s.push(e).drop_last() =~= s);
    assert(s.push(e).last() == e);
}

proof fn lemma_map_of_remove(s: Seq<(String, ToDoResponse)>, i: int)
    requires
        dup_free(s),
        0 <= i < s.len(),
    ensures
        dup_free(s.remove(i)),
        map_of(s.remove(i)) == map_of(s).remove(s[i].0@),
    decreases s.len(),
{
    let key = s[i].0@;
    assert forall|p: int, q: int| 0 <= p < q < s.remove(i).len() implies s.remove(i)[p].0@
        != s.remove(i)[q].0@ by {
        assert(s.remove(i)[p] == (if p < i {
            s[p]
        } else {
            s[p + 1]
        }));
        assert(s.remove(i)[q] == (if q < i {
            s[q]
        } else {
            s[q + 1]
        }));
    }
    if i == s.len() - 1 {
        assert(s.remove(i) =~= s.drop_last());
        assert(dup_free(s.drop_last()));
        lemma_map_of_get(s.drop_last(), key);
        assert(!map_of(s.drop_last()).contains_key(key));
        assert(map_of(s.drop_last()) =~= map_of(s.drop_last()).insert(key, s.last().1@).remove(
            key,
        ));
    } else {
        assert(dup_free(s.drop_last()));
        lemma_map_of_remove(s.drop_last(), i);
        assert(s.remove(i).drop_last() =~= s.drop_last().remove(i));
        assert(s.remove(i).last() == s.last());
        assert(s.drop_last()[i] == s[i]);
        assert(s.last().0@ != key);
        assert(map_of(s.drop_last()).remove(key).insert(s.last().0@, s.last().1@) =~= map_of(
            s.drop_last(),
        ).insert(s.last().0@, s.last().1@).remove(key));
    }
}

/// The in-memory table: a list of key-item entries with unique keys.
pub struct MemoryTable {
    entries: Vec<(String, ToDoResponse)>,
}

impl MemoryTable {
    /// The entries hold no key twice.
    pub closed spec fn wf(&self) -> bool {
        dup_free(self.entries@)
    }

    /// The table's contents, as a map from id to stored image.
    pub closed spec fn contents(&self) -> Map<Seq<char>, ToDoResponseV> {
        map_of(self.entries@)
    }

    /// An empty table.
    pub fn new() -> (r: MemoryTable)
        ensures
            r.wf(),
            r.contents() == Map::<Seq<char>, ToDoResponseV>::empty(),
    {
        MemoryTable { entries: Vec::new() }
    }

    fn lookup(&self, id: &str) -> (r: Option<usize>)
        ensures
            match r {
                Some(i) => i < self.entries@.len() && self.entries@[i as int].0@ == id@,
                None => forall|j: int| 0 <= j < self.entries@.len() ==> self.entries@[j].0@ != id@,
            },
    {
        let n = self.entries.len();
        let mut i: usize = 0;
        while i < n
            invariant
                i <= n,
                n == self.entries@.len(),
                forall|j: int| 0 <= j < i ==> self.entries@[j].0@ != id@,
            decreases n - i,
        {
            if str_eq(self.entries[i].0.as_str(), id) {
                return Some(i);
            }
            i += 1;
        }
        None
    }

    /// Removes the item stored under `id`, if any, and reports whether
    /// one was there: the store's "previous image existed" signal.
    pub fn delete_item(&mut self, id: &str) -> (existed: bool)
        requires
            old(self).wf(),
        ensures
            final(self).wf(),
            final(self).contents() == old(self).contents().remove(id@),
            existed == old(self).contents().contains_key(id@),
    {
        let found = self.lookup(id);
        match found {
            Some(i) => {
                proof {
                    lemma_map_of_get(self.entries@, id@);
                    lemma_map_of_remove(self.entries@, i as int);
                }
                self.entries.remove(i);
                true
            },
            None => {
                proof {
                    lemma_map_of_get(self.entries@, id@);
                    assert(map_of(self.entries@).remove(id@) =~= map_of(self.entries@));
                }
                false
            },
        }
    }

    /// Stores `item` under `id`, replacing any previous item with that
    /// key: last write wins.
    pub fn insert_item(&mut self, id: &str, item: ToDoResponse)
        requires
            old(self).wf(),
        ensures
            final(self).wf(),
            final(self).contents() == old(self).contents().insert(id@, item@),
    {
        self.delete_item(id);
        let ghost pre = self.entries@;
        let key = id.to_owned();
        self.entries.push((key, item));
        proof {
            lemma_map_of_get(pre, id@);
            lemma_map_of_push(pre, self.entries@.last());
            assert(self.entries@ =~= pre.push(self.entries@.last()));
            assert forall|p: int, q: int| 0 <= p < q < self.entries@.len() implies self.entries@[p].0@
                != self.entries@[q].0@ by {
                if q == self.entries@.len() - 1 {
                    assert(self.entries@[p] == pre[p]);
                }
            }
            assert(old(self).contents().remove(id@).insert(id@, item@) =~= old(
                self,
            ).contents().insert(id@, item@));
        }
    }

    /// Looks up the item stored under `id`.
    pub fn get_item(&self, id: &str) -> (r: Option<&ToDoResponse>)
        requires
            self.wf(),
        ensures
            (r matches Some(it) ==> self.contents().contains_key(id@) && it@ == self.contents().index(id@)),
            r is None ==> !self.contents().contains_key(id@),
    {
        let found = self.lookup(id);
        proof {
            lemma_map_of_get(self.entries@, id@);
        }
        match found {
            Some(i) => Some(&self.entries[i].1),
            None => None,
        }
    }
}

} // verus!
