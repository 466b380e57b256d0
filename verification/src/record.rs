//! Entity records: the flat key/value text dictionary of one decoded entity.

use vstd::prelude::*;

use crate::text::str_eq;

verus! {

/// One decoded entity: an unordered mapping from field names to values.
///
/// The record is held as a list of key/value pairs with pairwise-distinct
/// keys; its mathematical view is the finite map those pairs describe.
#[derive(Clone, Debug)]
pub struct EntityRecord {
    pub(crate) fields: Vec<(String, String)>,
}

/// The finite map described by a list of key/value pairs (later pairs win).
pub(crate) open spec fn map_of_pairs(s: Seq<(Seq<char>, Seq<char>)>) -> Map<Seq<char>, Seq<char>>
    decreases s.len(),
{
    if s.len() == 0 {
        Map::empty()
    } else {
        map_of_pairs(s.drop_last()).insert(s.last().0, s.last().1)
    }
}

/// No two pairs share a key.
pub(crate) open spec fn unique_keys(s: Seq<(Seq<char>, Seq<char>)>) -> bool {
    forall|a: int, b: int|
        0 <= a < b < s.len() ==> (#[trigger] s[a]).0 != (#[trigger] s[b]).0
}

pub(crate) proof fn lemma_map_of_pairs_contains(s: Seq<(Seq<char>, Seq<char>)>, k: Seq<char>)
    ensures
        map_of_pairs(s).contains_key(k) <==> exists|i: int| 0 <= i < s.len() && (#[trigger] s[i]).0 == k,
    decreases s.len(),
{
    if s.len() > 0 {
        lemma_map_of_pairs_contains(s.drop_last(), k);
        if map_of_pairs(s).contains_key(k) {
            if s.last().0 == k {
                assert(s[s.len() - 1].0 == k);
            } else {
                let i = choose|i: int| 0 <= i < s.drop_last().len() && (#[trigger] s.drop_last()[i]).0 == k;
                assert(s[i].0 == k);
            }
        }
        if exists|i: int| 0 <= i < s.len() && (#[trigger] s[i]).0 == k {
            let i = choose|i: int| 0 <= i < s.len() && (#[trigger] s[i]).0 == k;
            if i < s.len() - 1 {
                assert(s.drop_last()[i].0 == k);
            }
        }
    }
}

pub(crate) proof fn lemma_map_of_pairs_get(s: Seq<(Seq<char>, Seq<char>)>, i: int)
    requires
        unique_keys(s),
        0 <= i < s.len(),
    ensures
        map_of_pairs(s).contains_key(s[i].0),
        map_of_pairs(s)[s[i].0] == s[i].1,
    decreases s.len(),
{
    if i == s.len() - 1 {
        assert(s.last() == s[i]);
    } else {
        assert(unique_keys(s.drop_last()));
        assert(s.drop_last()[i] == s[i]);
        lemma_map_of_pairs_get(s.drop_last(), i);
        assert(s[i].0 != s.last().0);
    }
}

pub(crate) proof fn lemma_map_of_pairs_push(s: Seq<(Seq<char>, Seq<char>)>, p: (Seq<char>, Seq<char>))
    ensures
        map_of_pairs(s.push(p)) == map_of_pairs(s).insert(p.0, p.1),
{
    assert(s.push(p).drop_last() =~= s);
    assert(s.push(p).last() == p);
}

pub(crate) proof fn lemma_unique_keys_remove(s: Seq<(Seq<char>, Seq<char>)>, i: int)
    requires
        unique_keys(s),
        0 <= i < s.len(),
    ensures
        unique_keys(s.remove(i)),
{
    assert forall|a: int, b: int|
        0 <= a < b < s.remove(i).len() implies (#[trigger] s.remove(i)[a]).0 != (#[trigger] s.remove(
        i,
    )[b]).0 by {
        let a0 = if a < i {
            a
        } else {
            a + 1
        };
        let b0 = if b < i {
            b
        } else {
            b + 1
        };
        assert(s.remove(i)[a] == s[a0]);
        assert(s.remove(i)[b] == s[b0]);
    }
}

pub(crate) proof fn lemma_map_of_pairs_remove(s: Seq<(Seq<char>, Seq<char>)>, i: int)
    requires
        unique_keys(s),
        0 <= i < s.len(),
    ensures
        map_of_pairs(s.remove(i)) == map_of_pairs(s).remove(s[i].0),
    decreases s.len(),
{
    let k = s[i].0;
    if i == s.len() - 1 {
        assert(s.remove(i) =~= s.drop_last());
        lemma_map_of_pairs_contains(s.drop_last(), k);
        assert(map_of_pairs(s).remove(k) =~= map_of_pairs(s.drop_last()));
    } else {
        assert(s.remove(i).drop_last() =~= s.drop_last().remove(i));
        assert(s.remove(i).last() == s.last());
        assert(unique_keys(s.drop_last()));
        assert(s.drop_last()[i] == s[i]);
        lemma_map_of_pairs_remove(s.drop_last(), i);
        assert(s[i].0 != s.last().0);
        assert(map_of_pairs(s.drop_last()).remove(k).insert(s.last().0, s.last().1)
            =~= map_of_pairs(s.drop_last()).insert(s.last().0, s.last().1).remove(k));
    }
}

impl EntityRecord {
    /// The record's pairs, as character sequences.
    pub closed spec fn pairs(&self) -> Seq<(Seq<char>, Seq<char>)> {
        self.fields@.map_values(|p: (String, String)| (p.0@, p.1@))
    }

    /// Well-formed: the field names are pairwise distinct.
    pub closed spec fn wf(&self) -> bool {
        unique_keys(self.pairs())
    }

    /// An empty record.
    pub fn new() -> (r: Self)
        ensures
            r.wf(),
            r@ == Map::<Seq<char>, Seq<char>>::empty(),
    {
        let r = EntityRecord { fields: Vec::new() };
        proof {
            assert(r.pairs() =~= Seq::<(Seq<char>, Seq<char>)>::empty());
        }
        r
    }

    /// Sets a field, replacing any value the record already holds under
    /// that name.
    pub fn insert(&mut self, key: &str, value: &str)
        requires
            old(self).wf(),
        ensures
            final(self).wf(),
            final(self)@ == old(self)@.insert(key@, value@),
    {
        let mut idx: Option<usize> = None;
        let mut i: usize = 0;
        while i < self.fields.len() && idx.is_none()
            invariant
                0 <= i <= self.fields.len(),
                self == old(self),
                idx is None ==> forall|j: int|
                    0 <= j < i ==> (#[trigger] self.pairs()[j]).0 != key@,
                idx matches Some(j) ==> 0 <= j < self.fields.len() && self.pairs()[j as int].0
                    == key@,
            decreases self.fields.len() - i,
        {
            let p = &self.fields[i];
            if str_eq(p.0.as_str(), key) {
                idx = Some(i);
            }
            i += 1;
        }
        if let Some(j) = idx {
            self.fields.remove(j);
            proof {
                assert(self.pairs() =~= old(self).pairs().remove(j as int));
                lemma_unique_keys_remove(old(self).pairs(), j as int);
                lemma_map_of_pairs_remove(old(self).pairs(), j as int);
                assert forall|l: int|
                    0 <= l < self.pairs().len() implies (#[trigger] self.pairs()[l]).0
                    != key@ by {
                    let l0 = if l < j as int {
                        l
                    } else {
                        l + 1
                    };
                    assert(self.pairs()[l] == old(self).pairs()[l0]);
                    assert(old(self).pairs()[l0].0 != old(self).pairs()[j as int].0);
                }
            }
        }
        let ghost trimmed = self.pairs();
        proof {
            assert(unique_keys(trimmed));
            assert forall|l: int|
                0 <= l < trimmed.len() implies (#[trigger] trimmed[l]).0 != key@ by {
                assert(trimmed[l] == self.pairs()[l]);
            }
        }
        self.fields.push((key.to_owned(), value.to_owned()));
        proof {
            assert(self.pairs() =~= trimmed.push((key@, value@)));
            lemma_map_of_pairs_push(trimmed, (key@, value@));
            assert forall|a: int, b: int|
                0 <= a < b < trimmed.push((key@, value@)).len() implies (#[trigger] trimmed.push(
                (key@, value@),
            )[a]).0 != (#[trigger] trimmed.push((key@, value@))[b]).0 by {
                if b == trimmed.len() {
                    assert(trimmed[a].0 != key@);
                }
            }
            assert(map_of_pairs(trimmed).insert(key@, value@) =~= old(self)@.insert(
                key@,
                value@,
            ));
        }
    }

    /// Looks a field up by name.
    pub fn get(&self, key: &str) -> (r: Option<&String>)
        requires
            self.wf(),
        ensures
            match r {
                Some(v) => self@.contains_key(key@) && v@ == self@[key@],
                None => !self@.contains_key(key@),
            },
    {
        let mut i: usize = 0;
        while i < self.fields.len()
            invariant
                0 <= i <= self.fields.len(),
                self.wf(),
                forall|j: int| 0 <= j < i ==> (#[trigger] self.pairs()[j]).0 != key@,
            decreases self.fields.len() - i,
        {
            let p = &self.fields[i];
            if str_eq(p.0.as_str(), key) {
                proof {
                    lemma_map_of_pairs_get(self.pairs(), i as int);
                }
                return Some(&p.1);
            }
            i += 1;
        }
        proof {
            lemma_map_of_pairs_contains(self.pairs(), key@);
        }
        None
    }
}

impl View for EntityRecord {
    type V = Map<Seq<char>, Seq<char>>;

    closed spec fn view(&self) -> Map<Seq<char>, Seq<char>> {
        map_of_pairs(self.pairs())
    }
}

/// The value of field `k` in record `r`, or the empty string if absent.
pub open spec fn field_or_empty(r: Map<Seq<char>, Seq<char>>, k: Seq<char>) -> Seq<char> {
    if r.contains_key(k) {
        r[k]
    } else {
        Seq::empty()
    }
}

/// Reads a field as text, defaulting to the empty string when it is absent.
pub fn get_string_value(ent: &EntityRecord, key: &str) -> (r: String)
    requires
        ent.wf(),
    ensures
        r@ == field_or_empty(ent@, key@),
{
    match ent.get(key) {
        Some(v) => v.clone(),
        None => String::new(),
    }
}

} // verus!
