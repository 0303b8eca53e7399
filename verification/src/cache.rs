//! The disk cache's store: content-addressed by a stable hash of the request
//! URL, write-once, never invalidated. Existence of a key is treated as
//! permanent validity — there is no expiry and no deletion.
//!
//! This type holds the entries; reading and writing the backing directory is
//! the embedding application's concern. An entry's file name is the
//! hexadecimal rendering of its key (see `hashing`).

use std::collections::HashMap;
use vstd::prelude::*;

use crate::hashing::{fnv1a, url_hash};

verus! {

/// The cached bodies, keyed by the stable hash of the request URL string.
pub struct CacheStore {
    entries: HashMap<u64, Vec<u8>>,
}

impl View for CacheStore {
    type V = Map<u64, Seq<u8>>;

    closed spec fn view(&self) -> Map<u64, Seq<u8>> {
        self.entries@.map_values(|v: Vec<u8>| v@)
    }
}

impl CacheStore {
    /// An empty store: no URL has been fetched yet.
    pub fn new() -> (r: CacheStore)
        ensures
            r@ == Map::<u64, Seq<u8>>::empty(),
    {
        let r = CacheStore { entries: HashMap::new() };
        proof {
            assert(r@ =~= Map::<u64, Seq<u8>>::empty());
        }
        r
    }
}

/// Looks a URL up by its hash. An unseen key is an ordinary "absent", never
/// an error; a present key returns the full cached body.
pub fn try_load_from_cache<'a>(store: &'a CacheStore, url: &str) -> (r: Option<&'a Vec<u8>>)
    ensures
        match r {
            Some(data) => store@.contains_key(fnv1a(url@)) && data@ == store@[fnv1a(url@)],
            None => !store@.contains_key(fnv1a(url@)),
        },
{
    let key = url_hash(url);
    let r = store.entries.get(&key);
    proof {
        match r {
            Some(data) => {
                assert(store.entries@.contains_key(key));
                assert(store@[key] == data@);
            },
            None => {
                assert(!store.entries@.contains_key(key));
                assert(!store@.contains_key(key));
            },
        }
    }
    r
}

/// Stores a body under the hash of its URL. A second write to the same key
/// is not expected to occur, but if it does the new body replaces the old
/// one whole — the store never holds a corrupt mixture.
pub fn save_to_cache(store: &mut CacheStore, url: &str, data: &[u8])
    ensures
        final(store)@ == old(store)@.insert(fnv1a(url@), data@),
{
    let key = url_hash(url);
    let body = vstd::slice::slice_to_vec(data);
    store.entries.insert(key, body);
    proof {
        assert(store@ =~= old(store)@.insert(fnv1a(url@), data@));
    }
}

/// The cache round trip: a body saved under a URL is exactly what a load of
/// the same URL then returns, unchanged.
pub proof fn lemma_cache_round_trip(m: Map<u64, Seq<u8>>, url: Seq<char>, data: Seq<u8>)
    ensures
        m.insert(fnv1a(url), data).contains_key(fnv1a(url)),
        m.insert(fnv1a(url), data)[fnv1a(url)] == data,
{
}

} // verus!
