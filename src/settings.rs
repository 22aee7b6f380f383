use vstd::prelude::*;

verus! {

/// The value that the last entry with key `k` gives, if any entry has it.
pub open spec fn last_value(entries: Seq<(Seq<char>, Seq<char>)>, k: Seq<char>) -> Option<
    Seq<char>,
>
    decreases entries.len(),
{
    if entries.len() == 0 {
        None
    } else if entries.last().0 == k {
        Some(entries.last().1)
    } else {
        last_value(entries.drop_last(), k)
    }
}

/// Key/value settings as read from the chain at one block.
///
/// Entries are kept in the order they were inserted; a later entry for a key
/// replaces what an earlier one said.
#[derive(Debug)]
pub struct Settings {
    entries: Vec<(String, String)>,
}

impl Settings {
    /// The entries, as pairs of character sequences.
    pub closed spec fn pairs(&self) -> Seq<(Seq<char>, Seq<char>)> {
        self.entries@.map_values(|e: (String, String)| (e.0@, e.1@))
    }
}

impl View for Settings {
    type V = Map<Seq<char>, Seq<char>>;

    /// The mapping from each key to its value.
    closed spec fn view(&self) -> Map<Seq<char>, Seq<char>> {
        Map::new(
            |k: Seq<char>| last_value(self.pairs(), k) is Some,
            |k: Seq<char>| last_value(self.pairs(), k)->0,
        )
    }
}

impl Settings {
    /// Settings with no key.
    pub fn new() -> (r: Settings)
        ensures
            r@ == Map::<Seq<char>, Seq<char>>::empty(),
    {
        let r = Settings { entries: Vec::new() };
        assert(r@ =~= Map::<Seq<char>, Seq<char>>::empty());
        r
    }

    /// Sets `key` to `value`, replacing any value it had.
    pub fn insert(&mut self, key: String, value: String)
        ensures
            final(self)@ == old(self)@.insert(key@, value@),
    {
        let ghost before = self.pairs();
        self.entries.push((key, value));
        assert(self.pairs().drop_last() =~= before);
        assert(self@ =~= old(self)@.insert(key@, value@));
    }

    /// The value of `key`, if it is set.
    pub fn get(&self, key: &str) -> (r: Option<&String>)
        ensures
            match r {
                Some(v) => self@.contains_key(key@) && self@[key@] == v@,
                None => !self@.contains_key(key@),
            },
    {
        let k = key.to_owned();
        let mut i: usize = self.entries.len();
        assert(self.pairs().take(i as int) =~= self.pairs());
        while i > 0
            invariant
                i <= self.entries.len(),
                k@ == key@,
                last_value(self.pairs().take(i as int), key@) == last_value(self.pairs(), key@),
            decreases i,
        {
            i = i - 1;
            let ghost prefix = self.pairs().take(i + 1);
            assert(prefix.drop_last() =~= self.pairs().take(i as int));
            assert(prefix.last() == (self.entries[i as int].0@, self.entries[i as int].1@));
            if self.entries[i].0 == k {
                return Some(&self.entries[i].1);
            }
        }
        assert(self.pairs().take(0) =~= Seq::<(Seq<char>, Seq<char>)>::empty());
        None
    }
}

} // verus!
