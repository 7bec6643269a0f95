//! A small map from text to text, kept as a list of entries.

use vstd::prelude::*;
use crate::text::same_text;

verus! {

/// The value that a list of entries gives a key: that of the last entry with the key.
pub open spec fn lookup(entries: Seq<(Seq<char>, Seq<char>)>, key: Seq<char>) -> Option<
    Seq<char>,
>
    decreases entries.len(),
{
    if entries.len() == 0 {
        None
    } else if entries.last().0 == key {
        Some(entries.last().1)
    } else {
        lookup(entries.drop_last(), key)
    }
}

/// The map that a list of entries stands for; a later entry overrides an earlier one.
pub open spec fn map_of(entries: Seq<(Seq<char>, Seq<char>)>) -> Map<Seq<char>, Seq<char>> {
    Map::new(
        |k: Seq<char>| lookup(entries, k) is Some,
        |k: Seq<char>| lookup(entries, k).unwrap(),
    )
}

/// Adding an entry at the end sets its key and leaves the others.
pub proof fn lemma_map_of_push(
    entries: Seq<(Seq<char>, Seq<char>)>,
    key: Seq<char>,
    value: Seq<char>,
)
    ensures
        map_of(entries.push((key, value))) == map_of(entries).insert(key, value),
{
    let longer = entries.push((key, value));
    assert(longer.drop_last() == entries);
    assert forall|k: Seq<char>| #[trigger] lookup(longer, k) == (if k == key {
        Some(value)
    } else {
        lookup(entries, k)
    }) by {}
    assert(map_of(longer) =~= map_of(entries).insert(key, value));
}

/// A map from text to text.
#[derive(Clone, Debug)]
pub struct TextMap {
    pub entries: Vec<(String, String)>,
}

impl View for TextMap {
    type V = Map<Seq<char>, Seq<char>>;

    open spec fn view(&self) -> Map<Seq<char>, Seq<char>> {
        map_of(self.entries.deep_view())
    }
}

impl TextMap {
    /// The empty map.
    pub fn new() -> (r: TextMap)
        ensures
            r@ == Map::<Seq<char>, Seq<char>>::empty(),
    {
        let r = TextMap { entries: Vec::new() };
        assert(r.entries.deep_view() == Seq::<(Seq<char>, Seq<char>)>::empty());
        assert(r@ =~= Map::<Seq<char>, Seq<char>>::empty());
        r
    }

    /// The value of a key, if it has one.
    pub fn get(&self, key: &str) -> (r: Option<String>)
        ensures
            r is Some <==> self@.contains_key(key@),
            r matches Some(v) ==> v@ == self@[key@],
    {
        let ghost all = self.entries.deep_view();
        let mut i: usize = self.entries.len();
        assert(all.take(i as int) == all);
        while i > 0
            invariant
                i <= self.entries.len(),
                all == self.entries.deep_view(),
                lookup(all.take(i as int), key@) == lookup(all, key@),
            decreases i,
        {
            let ghost head = all.take(i as int);
            assert(head.drop_last() == all.take(i - 1));
            assert(head.last() == all[i - 1]);
            assert(all[i - 1] == (self.entries@[i - 1].0@, self.entries@[i - 1].1@));
            if same_text(self.entries[i - 1].0.as_str(), key) {
                return Some(self.entries[i - 1].1.clone());
            }
            i -= 1;
        }
        None
    }

    /// Takes the key out of the map.
    pub fn remove(&mut self, key: &str)
        ensures
            final(self)@ == old(self)@.remove(key@),
    {
        let ghost before = self.entries.deep_view();
        let mut kept: Vec<(String, String)> = Vec::new();
        let mut i: usize = 0;
        assert(kept.deep_view() == Seq::<(Seq<char>, Seq<char>)>::empty());
        assert(before.take(0) == Seq::<(Seq<char>, Seq<char>)>::empty());
        assert(map_of(kept.deep_view()) =~= map_of(before.take(0)).remove(key@));
        while i < self.entries.len()
            invariant
                i <= self.entries.len(),
                before == self.entries.deep_view(),
                map_of(kept.deep_view()) == map_of(before.take(i as int)).remove(key@),
            decreases self.entries.len() - i,
        {
            let ghost head = before.take(i as int);
            let ghost entry = before[i as int];
            assert(before.take(i + 1) == head.push(entry));
            assert(entry == (self.entries@[i as int].0@, self.entries@[i as int].1@));
            proof {
                lemma_map_of_push(head, entry.0, entry.1);
            }
            if !same_text(self.entries[i].0.as_str(), key) {
                let ghost shorter = kept.deep_view();
                let k = self.entries[i].0.clone();
                let v = self.entries[i].1.clone();
                kept.push((k, v));
                proof {
                    assert(kept.deep_view() == shorter.push(entry));
                    lemma_map_of_push(shorter, entry.0, entry.1);
                    assert(map_of(head).remove(key@).insert(entry.0, entry.1) =~= map_of(
                        head,
                    ).insert(entry.0, entry.1).remove(key@));
                }
            } else {
                assert(map_of(head).remove(key@) =~= map_of(head).insert(entry.0, entry.1).remove(
                    key@,
                ));
            }
            i += 1;
        }
        assert(before.take(self.entries.len() as int) == before);
        self.entries = kept;
    }

    /// Sets the value of a key, in place of any that it had.
    pub fn insert(&mut self, key: String, value: String)
        ensures
            final(self)@ == old(self)@.insert(key@, value@),
    {
        self.remove(key.as_str());
        let ghost shorter = self.entries.deep_view();
        let ghost k = key@;
        let ghost v = value@;
        self.entries.push((key, value));
        proof {
            assert(self.entries.deep_view() == shorter.push((k, v)));
            lemma_map_of_push(shorter, k, v);
            assert(old(self)@.remove(k).insert(k, v) =~= old(self)@.insert(k, v));
        }
    }
}

} // verus!
