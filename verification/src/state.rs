use vstd::prelude::*;

verus! {

/// A snapshot of vault configuration: the owner of the cart and the total
/// price it was bought for. Kept as part of the public data model; the
/// operations themselves read and write the `Store` directly.
#[derive(Debug, Clone, PartialEq, Eq)]
pub struct State {
    pub cart_owner: String,
    pub total_price: u128,
}

/// The key-value store that durably holds the vault's state: keyed byte
/// storage with point reads and writes. A write to an existing key
/// overwrites it; nothing is ever deleted.
///
/// The store is denoted by a map from key bytes to value bytes, and every
/// operation's contract is stated over that map.
#[derive(Debug, Clone, PartialEq, Eq)]
pub struct Store {
    entries: Vec<(Vec<u8>, Vec<u8>)>,
}

/// The mapping an entry list denotes: each entry binds its key, and a later
/// entry for the same key shadows an earlier one.
spec fn entries_map(s: Seq<(Vec<u8>, Vec<u8>)>) -> Map<Seq<u8>, Seq<u8>>
    decreases s.len(),
{
    if s.len() == 0 {
        Map::empty()
    } else {
        entries_map(s.drop_last()).insert(s.last().0@, s.last().1@)
    }
}

impl View for Store {
    type V = Map<Seq<u8>, Seq<u8>>;

    closed spec fn view(&self) -> Map<Seq<u8>, Seq<u8>> {
        entries_map(self.entries@)
    }
}

proof fn lemma_entries_map_found(s: Seq<(Vec<u8>, Vec<u8>)>, i: int)
    requires
        0 <= i < s.len(),
        forall|j: int| i < j < s.len() ==> s[j].0@ != s[i].0@,
    ensures
        entries_map(s).contains_key(s[i].0@),
        entries_map(s)[s[i].0@] == s[i].1@,
    decreases s.len(),
{
    if i == s.len() - 1 {
    } else {
        let t = s.drop_last();
        lemma_entries_map_found(t, i);
    }
}

proof fn lemma_entries_map_absent(s: Seq<(Vec<u8>, Vec<u8>)>, k: Seq<u8>)
    requires
        forall|j: int| 0 <= j < s.len() ==> s[j].0@ != k,
    ensures
        !entries_map(s).contains_key(k),
    decreases s.len(),
{
    if s.len() == 0 {
    } else {
        lemma_entries_map_absent(s.drop_last(), k);
    }
}

impl Store {
    /// An empty store.
    pub fn new() -> (s: Store)
        ensures
            s@ == Map::<Seq<u8>, Seq<u8>>::empty(),
    {
        Store { entries: Vec::new() }
    }

    /// Binds `key` to `value`, overwriting any earlier binding.
    pub fn set(&mut self, key: Vec<u8>, value: Vec<u8>)
        ensures
            final(self)@ == old(self)@.insert(key@, value@),
    {
        self.entries.push((key, value));
        proof {
            assert(self.entries@.drop_last() =~= old(self).entries@);
        }
    }

    /// Looks the value for `key` up.
    pub fn get(&self, key: &Vec<u8>) -> (r: Option<&Vec<u8>>)
        ensures
            match r {
                Some(v) => self@.contains_key(key@) && v@ == self@[key@],
                None => !self@.contains_key(key@),
            },
    {
        let n: usize = self.entries.len();
        let mut i: usize = n;
        while i > 0
            invariant
                i <= n,
                n == self.entries.len(),
                forall|j: int| i <= j < n ==> self.entries@[j].0@ != key@,
            decreases i,
        {
            i = i - 1;
            let e = &self.entries[i];
            if e.0 == *key {
                proof {
                    assert(e.0@ =~= key@);
                    lemma_entries_map_found(self.entries@, i as int);
                }
                return Some(&e.1);
            }
        }
        proof {
            lemma_entries_map_absent(self.entries@, key@);
        }
        None
    }
}

} // verus!
