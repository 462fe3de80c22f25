//! The lazy directory cache: fetch once, hold in memory, persist at
//! orderly shutdown. Used for the channel and the device directory.
use vstd::prelude::*;

verus! {

/// A lazily populated, in-memory slot for one directory. Whatever
/// persistent storage held is adopted at construction; a remote fetch is
/// asked for only while the slot is empty, and populating it is possible
/// only once per process.
pub struct LazyCache<T> {
    value: Option<T>,
}

impl<T> LazyCache<T> {
    /// The held directory, if any.
    pub closed spec fn spec_value(&self) -> Option<T> {
        self.value
    }

    /// An empty cache: nothing loaded, nothing fetched yet.
    pub fn empty() -> (c: Self)
        ensures
            c.spec_value() is None,
    {
        LazyCache { value: None }
    }

    /// A cache primed with whatever persistent storage held, if anything.
    pub fn from_persisted(loaded: Option<T>) -> (c: Self)
        ensures
            c.spec_value() == loaded,
    {
        LazyCache { value: loaded }
    }

    /// Whether a remote fetch is still needed: exactly while the slot is
    /// empty.
    pub fn needs_fetch(&self) -> (r: bool)
        ensures
            r == (self.spec_value() is None),
    {
        self.value.is_none()
    }

    /// Stores the fetched directory. Population happens at most once: a
    /// filled slot is never overwritten.
    pub fn populate(&mut self, fetched: T)
        requires
            old(self).spec_value() is None,
        ensures
            final(self).spec_value() == Some(fetched),
    {
        self.value = Some(fetched);
    }

    /// The held directory, without any side effect.
    pub fn get(&self) -> (r: Option<&T>)
        ensures
            match r {
                None => self.spec_value() is None,
                Some(v) => self.spec_value() == Some(*v),
            },
    {
        self.value.as_ref()
    }
}

/// What one lookup does, given what persistent storage and the remote API
/// would answer were they consulted: the directory returned, the cache's
/// content afterwards, and how many remote fetches ran. An in-memory
/// directory is returned as-is; else a persisted one is adopted; only
/// with neither is the remote fetched.
pub open spec fn spec_lookup<T>(cached: Option<T>, persisted: Option<T>, fetched: T) -> (
    T,
    Option<T>,
    int,
) {
    match cached {
        Some(v) => (v, Some(v), 0),
        None => match persisted {
            Some(v) => (v, Some(v), 0),
            None => (fetched, Some(fetched), 1),
        },
    }
}

/// Directory idempotence: two lookups with no intervening restart fetch
/// the remote at most once in total, and both return the same directory
/// unchanged.
pub proof fn lemma_lookup_idempotent<T>(
    cached: Option<T>,
    persisted1: Option<T>,
    fetched1: T,
    persisted2: Option<T>,
    fetched2: T,
)
    ensures
        ({
            let (v1, c1, f1) = spec_lookup(cached, persisted1, fetched1);
            let (v2, c2, f2) = spec_lookup(c1, persisted2, fetched2);
            v2 == v1 && c2 == c1 && f1 + f2 <= 1
        }),
{
}

/// A populated cache answers every later lookup from memory: no fetch, no
/// change.
pub proof fn lemma_populated_lookup_is_pure<T>(held: T, persisted: Option<T>, fetched: T)
    ensures
        spec_lookup(Some(held), persisted, fetched) == (held, Some(held), 0int),
{
}

} // verus!
