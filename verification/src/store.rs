//! The secret store: the upstream address and the bearer token, written once
//! before the first request and only read afterwards.

use vstd::prelude::*;

verus! {

/// Why a lookup in the secret store failed.
#[derive(Debug)]
pub enum StoreError {
    /// The lock around the store could not be taken.
    LockFailed,
    /// The store was never populated.
    Uninitialized,
    /// The store is populated and holds nothing under this key.
    KeyNotFound(String),
}

/// The map that a list of pairs stands for: a later pair replaces an earlier
/// one with the same key.
pub open spec fn pairs_map(pairs: Seq<(String, String)>) -> Map<Seq<char>, Seq<char>>
    decreases pairs.len(),
{
    if pairs.len() == 0 {
        Map::empty()
    } else {
        pairs_map(pairs.drop_last()).insert(pairs.last().0@, pairs.last().1@)
    }
}

/// A key that no pair from `from` on holds is looked up in the pairs before
/// `from` alone.
proof fn lemma_pairs_map_skip(pairs: Seq<(String, String)>, from: int, key: Seq<char>)
    requires
        0 <= from <= pairs.len(),
        forall|j: int| from <= j < pairs.len() ==> pairs[j].0@ != key,
    ensures
        pairs_map(pairs).contains_key(key) == pairs_map(pairs.take(from)).contains_key(key),
        pairs_map(pairs).contains_key(key) ==> pairs_map(pairs)[key] == pairs_map(
            pairs.take(from),
        )[key],
    decreases pairs.len() - from,
{
    if from == pairs.len() {
        assert(pairs.take(from) =~= pairs);
    } else {
        assert(pairs.drop_last().take(from) =~= pairs.take(from));
        lemma_pairs_map_skip(pairs.drop_last(), from, key);
    }
}

/// What a store holds after it was asked to take `pairs`: an empty store
/// takes them, a populated store stays as it is.
pub open spec fn populated(
    store: Option<Map<Seq<char>, Seq<char>>>,
    pairs: Seq<(String, String)>,
) -> Option<Map<Seq<char>, Seq<char>>> {
    match store {
        None => Some(pairs_map(pairs)),
        Some(m) => Some(m),
    }
}

/// The key/value store that the forwarder reads.
pub struct SecretStore {
    entries: Option<Vec<(String, String)>>,
}

impl SecretStore {
    /// What the store holds: `None` until it is populated, then a map from
    /// key to value.
    pub closed spec fn view(&self) -> Option<Map<Seq<char>, Seq<char>>> {
        match self.entries {
            Some(pairs) => Some(pairs_map(pairs@)),
            None => None,
        }
    }

    /// A store that was not populated yet.
    pub fn new() -> (store: SecretStore)
        ensures
            store@ is None,
    {
        SecretStore { entries: None }
    }

    /// Whether the store was populated.
    pub fn is_populated(&self) -> (r: bool)
        ensures
            r == (self@ is Some),
    {
        self.entries.is_some()
    }

    /// Populates a store that is still empty with `pairs`, and says whether
    /// it did. A populated store is never written again.
    pub fn populate(&mut self, pairs: Vec<(String, String)>) -> (written: bool)
        ensures
            written == (old(self)@ is None),
            final(self)@ == populated(old(self)@, pairs@),
    {
        if self.entries.is_some() {
            return false;
        }
        self.entries = Some(pairs);
        true
    }
}

/// What a lookup finds.
pub enum Lookup {
    /// The store was never populated.
    Uninitialized,
    /// The store is populated and holds nothing under the key.
    KeyNotFound,
    /// The store holds this value under the key.
    Found(Seq<char>),
}

/// What a lookup of `key` finds in a store with this view.
pub open spec fn lookup(store: Option<Map<Seq<char>, Seq<char>>>, key: Seq<char>) -> Lookup {
    match store {
        None => Lookup::Uninitialized,
        Some(m) => if m.contains_key(key) {
            Lookup::Found(m[key])
        } else {
            Lookup::KeyNotFound
        },
    }
}

/// `r` is the result of a lookup of `key` that found `found`.
pub open spec fn is_lookup(r: Result<String, StoreError>, key: Seq<char>, found: Lookup) -> bool {
    match found {
        Lookup::Uninitialized => r matches Err(StoreError::Uninitialized),
        Lookup::KeyNotFound => r matches Err(StoreError::KeyNotFound(k)) && k@ == key,
        Lookup::Found(value) => r matches Ok(v) && v@ == value,
    }
}

/// The value that the store holds under `name`.
///
/// Fails with `Uninitialized` on a store that was never populated, and with
/// `KeyNotFound`, carrying the key, on a populated store without that key.
pub fn get_item(store: &SecretStore, name: &str) -> (r: Result<String, StoreError>)
    ensures
        is_lookup(r, name@, lookup(store@, name@)),
{
    match &store.entries {
        None => Err(StoreError::Uninitialized),
        Some(pairs) => {
            let key: String = name.to_owned();
            let mut i: usize = pairs.len();
            while i > 0
                invariant
                    i <= pairs@.len(),
                    key@ == name@,
                    store@ == Some(pairs_map(pairs@)),
                    forall|j: int| i <= j < pairs@.len() ==> pairs@[j].0@ != name@,
                decreases i,
            {
                i = i - 1;
                if pairs[i].0 == key {
                    let value: String = pairs[i].1.clone();
                    proof {
                        let upto = pairs@.take(i + 1);
                        lemma_pairs_map_skip(pairs@, i + 1, name@);
                        assert(upto.len() > 0 && upto.last() == pairs@[i as int]);
                        assert(pairs_map(upto) == pairs_map(upto.drop_last()).insert(
                            upto.last().0@,
                            upto.last().1@,
                        ));
                    }
                    return Ok(value);
                }
            }
            proof {
                lemma_pairs_map_skip(pairs@, 0, name@);
                assert(pairs@.take(0) =~= Seq::<(String, String)>::empty());
            }
            Err(StoreError::KeyNotFound(key))
        },
    }
}

} // verus!
