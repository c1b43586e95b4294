//! A small map with text keys.
use vstd::prelude::*;

use crate::text::same;

verus! {

/// A map from texts to values, kept as rows.
#[derive(Debug)]
pub struct TextMap<V> {
    rows: Vec<(String, V)>,
}

/// The value of the last row with the given key.
pub open spec fn row_value<V>(rows: Seq<(String, V)>, key: Seq<char>) -> Option<V>
    decreases rows.len(),
{
    if rows.len() == 0 {
        None
    } else if rows.last().0@ == key {
        Some(rows.last().1)
    } else {
        row_value(rows.drop_last(), key)
    }
}

/// The map that the rows stand for.
pub open spec fn rows_map<V>(rows: Seq<(String, V)>) -> Map<Seq<char>, V> {
    Map::new(
        |k: Seq<char>| row_value(rows, k) is Some,
        |k: Seq<char>| row_value(rows, k)->0,
    )
}

impl<V> View for TextMap<V> {
    type V = Map<Seq<char>, V>;

    closed spec fn view(&self) -> Map<Seq<char>, V> {
        rows_map(self.rows@)
    }
}

/// The value of a key, where it has one.
pub open spec fn value_of<V>(map: Map<Seq<char>, V>, key: Seq<char>) -> Option<V> {
    if map.dom().contains(key) {
        Some(map[key])
    } else {
        None
    }
}

impl<V: Copy> TextMap<V> {
    /// A map without keys.
    pub fn new() -> (r: Self)
        ensures
            r@ == Map::<Seq<char>, V>::empty(),
    {
        let r = TextMap { rows: Vec::new() };
        assert(rows_map(r.rows@) =~= Map::<Seq<char>, V>::empty());
        r
    }

    /// The value of a key.
    pub fn get(&self, key: &str) -> (r: Option<V>)
        ensures
            r == value_of(self@, key@),
    {
        let mut n: usize = self.rows.len();
        assert(self.rows@.take(n as int) =~= self.rows@);
        while n > 0
            invariant
                n <= self.rows.len(),
                row_value(self.rows@, key@) == row_value(self.rows@.take(n as int), key@),
            decreases n,
        {
            assert(self.rows@.take(n as int).drop_last() =~= self.rows@.take(n - 1));
            assert(self.rows@.take(n as int).last() == self.rows@[n - 1]);
            if same(self.rows[n - 1].0.as_str(), key) {
                return Some(self.rows[n - 1].1);
            }
            n -= 1;
        }
        None
    }

    /// Takes a key and its value out of the map.
    pub fn remove(&mut self, key: &str)
        ensures
            final(self)@ == old(self)@.remove(key@),
    {
        let ghost before = self.rows@;
        let mut kept: Vec<(String, V)> = Vec::new();
        let mut i: usize = 0;
        while i < self.rows.len()
            invariant
                i <= self.rows.len(),
                before == self.rows@,
                self.rows@ == old(self).rows@,
                forall|k: Seq<char>| #[trigger]
                    row_value(kept@, k) == if k == key@ {
                        None
                    } else {
                        row_value(before.take(i as int), k)
                    },
            decreases self.rows.len() - i,
        {
            let ghost so_far = kept@;
            assert(before.take(i + 1).drop_last() =~= before.take(i as int));
            if !same(self.rows[i].0.as_str(), key) {
                kept.push((self.rows[i].0.clone(), self.rows[i].1));
                assert(kept@.drop_last() =~= so_far);
            }
            assert forall|k: Seq<char>| #[trigger] row_value(kept@, k) == if k == key@ {
                None
            } else {
                row_value(before.take(i + 1), k)
            } by {
                assert(row_value(so_far, k) == if k == key@ {
                    None
                } else {
                    row_value(before.take(i as int), k)
                });
            }
            i += 1;
        }
        assert(before.take(i as int) =~= before);
        self.rows = kept;
        assert(rows_map(self.rows@) =~= rows_map(before).remove(key@));
    }

    /// Gives a key a value.
    pub fn insert(&mut self, key: &str, value: V)
        ensures
            final(self)@ == old(self)@.insert(key@, value),
    {
        self.remove(key);
        let ghost before = self.rows@;
        self.rows.push((key.to_owned(), value));
        proof {
            assert(self.rows@.drop_last() =~= before);
            assert(rows_map(self.rows@) =~= rows_map(before).insert(key@, value));
            assert(old(self)@.remove(key@).insert(key@, value) =~= old(self)@.insert(key@, value));
        }
    }
}

} // verus!
