//! The read-through (cache-aside) composition of a cache store and an
//! upstream client. A lookup comes first; only on a miss does the caller ask
//! the upstream, and then hands its result back here, where a success is
//! written under all of the entity's keys before it is returned and a failure
//! is passed on untouched with nothing written. A cache write failure after a
//! successful fetch is reported, not ignored.
use crate::cache::{Cacheable, Cacher};
use crate::error::CacherError;
use crate::store::{entries_after_put, open_write, stored_entries};
use vstd::prelude::*;

verus! {

/// The outcome of the lookup step.
#[derive(Debug)]
pub enum Lookup {
    /// The store holds the encoding of the entity under the key.
    Hit(Vec<u8>),
    /// Nothing could be read under the key: ask the upstream.
    Fetch,
}

/// Why a read-through failed after a miss.
#[derive(Debug)]
pub enum ReadThroughError<E> {
    /// The upstream failed; its error, unchanged.
    Upstream(E),
    /// The upstream succeeded but the entity could not be written.
    Store(CacherError),
}

/// Looks `key` up. A hit carries exactly what the store holds under the key.
pub fn lookup<T: Cacheable>(cacher: &Cacher<T>, cache: &redb::Database, key: &str) -> (r: Lookup)
    ensures
        r matches Lookup::Hit(b) ==> stored_entries(*cache).contains_key((T::table_spec(), key@))
            && b@ == stored_entries(*cache)[(T::table_spec(), key@)],
        !stored_entries(*cache).contains_key((T::table_spec(), key@)) ==> r is Fetch,
{
    match cacher.find_cache_entry(key, cache) {
        Some(b) => Lookup::Hit(b),
        None => Lookup::Fetch,
    }
}

/// Completes a read-through after a miss, given what the upstream returned
/// (the entity with its encoding) or its error.
pub fn finish<T: Cacheable, E>(
    cacher: &Cacher<T>,
    cache: &mut redb::Database,
    fetched: Result<(T, Vec<u8>), E>,
) -> (r: Result<T, ReadThroughError<E>>)
    requires
        open_write(*old(cache)) is None,
    ensures
        open_write(*final(cache)) is None,
        match fetched {
            Err(e) => r == Err::<T, ReadThroughError<E>>(ReadThroughError::Upstream(e))
                && stored_entries(*final(cache)) == stored_entries(*old(cache)),
            Ok((entity, bytes)) => match r {
                Ok(t) => t == entity && stored_entries(*final(cache)) == entries_after_put(
                    stored_entries(*old(cache)),
                    T::table_spec(),
                    entity.key_views(),
                    bytes@,
                ),
                Err(ReadThroughError::Store(_)) => stored_entries(*final(cache)) == stored_entries(
                    *old(cache),
                ) || stored_entries(*final(cache)) == entries_after_put(
                    stored_entries(*old(cache)),
                    T::table_spec(),
                    entity.key_views(),
                    bytes@,
                ),
                Err(ReadThroughError::Upstream(_)) => false,
            },
        },
{
    match fetched {
        Err(e) => Err(ReadThroughError::Upstream(e)),
        Ok((entity, bytes)) => match cacher.cache_object(&entity, &bytes, cache) {
            Ok(()) => Ok(entity),
            Err(e) => Err(ReadThroughError::Store(e)),
        },
    }
}

} // verus!
