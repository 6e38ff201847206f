//! The generic per-type cache store. Each cacheable type owns one table of the
//! backing database, named by the type; an entity is written under every one of
//! its keys in a single transaction. Values are held as the bytes of the
//! entity's encoding, which the caller supplies.
use crate::error::CacherError;
use crate::store::{
    abort_write, begin_write, commit_write, create_database, create_table, entries_after_put,
    insert_entry, lemma_put_none, lemma_put_one_more, open_database, open_write, pending_entries,
    read_entry, stored_entries, txn_id,
};
use std::marker::PhantomData;
use vstd::prelude::*;

verus! {

/// An entity that can be cached: it names its table and gives the keys under
/// which it can be looked up.
pub trait Cacheable: Sized {
    /// The keys of the entity, in order.
    spec fn key_views(&self) -> Seq<Seq<char>>;

    /// The name of the entity type's table.
    spec fn table_spec() -> Seq<char>;

    fn keys(&self) -> (r: Vec<String>)
        ensures
            r@.map_values(|k: String| k@) == self.key_views(),
    ;

    /// A table name is never empty.
    fn table_name() -> (r: &'static str)
        ensures
            r@ == Self::table_spec(),
            r@.len() > 0,
    ;
}

/// A persistent store of entities of type `T`, in the database file at a path.
pub struct Cacher<T> {
    cache_file_path: String,
    _phantom: PhantomData<T>,
}

impl<T: Cacheable> Cacher<T> {
    /// The path of the database file.
    pub closed spec fn file_path(&self) -> Seq<char> {
        self.cache_file_path@
    }

    pub fn new(cache_file_path: String) -> (r: Self)
        ensures
            r.file_path() == cache_file_path@,
    {
        Cacher { cache_file_path, _phantom: PhantomData }
    }

    pub fn cache_file_path(&self) -> (r: &String)
        ensures
            r@ == self.file_path(),
    {
        &self.cache_file_path
    }

    /// Creates the database file if absent and `T`'s table if absent; an
    /// existing table keeps its entries.
    pub fn init_cache(&self) -> (r: Result<(), CacherError>)
        ensures
            r matches Err(e) ==> e is StoreInit,
    {
        match create_database(self.cache_file_path.as_str()) {
            Ok(db) => {
                let mut db = db;
                match create_table(&mut db, T::table_name()) {
                    Ok(()) => Ok(()),
                    Err(e) => Err(CacherError::StoreInit(e)),
                }
            },
            Err(e) => Err(CacherError::StoreInit(e)),
        }
    }

    /// Opens the existing database file for reads and writes.
    pub fn open_cache(&self) -> (r: Result<redb::Database, CacherError>)
        ensures
            r matches Err(e) ==> e is StoreInit,
            r matches Ok(db) ==> open_write(db) is None,
    {
        match open_database(self.cache_file_path.as_str()) {
            Ok(db) => Ok(db),
            Err(e) => Err(CacherError::StoreInit(e)),
        }
    }

    /// Looks `query` up in `T`'s table. A missing key gives `None`; so does a
    /// failed read, which callers treat as a miss.
    pub fn find_cache_entry(&self, query: &str, cache: &redb::Database) -> (r: Option<Vec<u8>>)
        ensures
            r matches Some(v) ==> stored_entries(*cache).contains_key((T::table_spec(), query@))
                && v@ == stored_entries(*cache)[(T::table_spec(), query@)],
            !stored_entries(*cache).contains_key((T::table_spec(), query@)) ==> r is None,
    {
        read_entry(cache, T::table_name(), query)
    }

    /// Writes `encoded`, the encoding of `object_to_cache`, under every key of
    /// the object in one transaction. On success every key holds it. A failure
    /// before the commit leaves the store unchanged; a failed commit leaves it
    /// either unchanged or fully written, never in part.
    pub fn cache_object(
        &self,
        object_to_cache: &T,
        encoded: &Vec<u8>,
        cache: &mut redb::Database,
    ) -> (r: Result<(), CacherError>)
        requires
            open_write(*old(cache)) is None,
        ensures
            open_write(*final(cache)) is None,
            r is Ok ==> stored_entries(*final(cache)) == entries_after_put(
                stored_entries(*old(cache)),
                T::table_spec(),
                object_to_cache.key_views(),
                encoded@,
            ),
            r matches Err(e) ==> e is StoreWrite,
            stored_entries(*final(cache)) == stored_entries(*old(cache)) || stored_entries(
                *final(cache),
            ) == entries_after_put(
                stored_entries(*old(cache)),
                T::table_spec(),
                object_to_cache.key_views(),
                encoded@,
            ),
    {
        let keys = object_to_cache.keys();
        let table = T::table_name();
        let ghost before = stored_entries(*cache);
        let ghost ks = object_to_cache.key_views();
        let mut txn = match begin_write(cache) {
            Ok(t) => t,
            Err(e) => return Err(CacherError::StoreWrite(e)),
        };
        proof {
            lemma_put_none(before, table@, encoded@);
            assert(ks.subrange(0, 0) =~= Seq::<Seq<char>>::empty());
        }
        let mut i: usize = 0;
        while i < keys.len()
            invariant
                i <= keys@.len(),
                keys@.map_values(|k: String| k@) == ks,
                table@ == T::table_spec(),
                table@.len() > 0,
                stored_entries(*cache) == before,
                before == stored_entries(*old(cache)),
                ks == object_to_cache.key_views(),
                open_write(*cache) == Some(txn_id(txn)),
                pending_entries(txn) == entries_after_put(before, table@, ks.subrange(0, i as int), encoded@),
            decreases keys@.len() - i,
        {
            match insert_entry(&mut txn, table, keys[i].as_str(), encoded) {
                Ok(()) => {},
                Err(e) => {
                    abort_write(cache, txn);
                    return Err(CacherError::StoreWrite(e));
                },
            }
            proof {
                lemma_put_one_more(before, table@, ks, encoded@, i as int);
                assert(ks[i as int] == keys@[i as int]@);
            }
            i += 1;
        }
        assert(ks.subrange(0, i as int) =~= ks);
        match commit_write(cache, txn) {
            Ok(()) => Ok(()),
            Err(e) => Err(CacherError::StoreWrite(e)),
        }
    }
}

/// After an entity is written, each of its keys holds its encoding.
pub proof fn lemma_key_consistency(
    entries: Map<(Seq<char>, Seq<char>), Seq<u8>>,
    table: Seq<char>,
    keys: Seq<Seq<char>>,
    value: Seq<u8>,
    k: Seq<char>,
)
    requires
        keys.contains(k),
    ensures
        entries_after_put(entries, table, keys, value).contains_key((table, k)),
        entries_after_put(entries, table, keys, value)[(table, k)] == value,
{
}

/// When a second entity is written after a first, every key the second has
/// holds the second's encoding, whether or not the first shared it; keys of
/// the first alone keep the first's encoding.
pub proof fn lemma_overwrite(
    entries: Map<(Seq<char>, Seq<char>), Seq<u8>>,
    table: Seq<char>,
    keys1: Seq<Seq<char>>,
    value1: Seq<u8>,
    keys2: Seq<Seq<char>>,
    value2: Seq<u8>,
    k: Seq<char>,
)
    ensures
        keys2.contains(k) ==> entries_after_put(
            entries_after_put(entries, table, keys1, value1),
            table,
            keys2,
            value2,
        )[(table, k)] == value2,
        keys1.contains(k) && !keys2.contains(k) ==> entries_after_put(
            entries_after_put(entries, table, keys1, value1),
            table,
            keys2,
            value2,
        )[(table, k)] == value1,
{
}

/// A key that was never written stays absent, so a lookup of it finds nothing.
pub proof fn lemma_miss(
    entries: Map<(Seq<char>, Seq<char>), Seq<u8>>,
    table: Seq<char>,
    keys: Seq<Seq<char>>,
    value: Seq<u8>,
    k: Seq<char>,
)
    requires
        !entries.contains_key((table, k)),
        !keys.contains(k),
    ensures
        !entries_after_put(entries, table, keys, value).contains_key((table, k)),
{
}

/// Writing to one table leaves the entries of every other table as they were.
pub proof fn lemma_table_isolation(
    entries: Map<(Seq<char>, Seq<char>), Seq<u8>>,
    table: Seq<char>,
    other: Seq<char>,
    keys: Seq<Seq<char>>,
    value: Seq<u8>,
    k: Seq<char>,
)
    requires
        table != other,
    ensures
        entries_after_put(entries, table, keys, value).contains_key((other, k)) == entries.contains_key(
            (other, k),
        ),
        entries.contains_key((other, k)) ==> entries_after_put(entries, table, keys, value)[(
        other,
        k,
        )] == entries[(other, k)],
{
}

} // verus!
