//! The embedded transactional key-value engine (redb), seen as a collection of
//! byte values keyed by (table name, key). A redb file is locked by the process
//! that opened it, so a `Database` value is the only writer of its file, and its
//! committed entries change only through the `&mut` items here. A write
//! transaction collects inserts that become visible together at its commit, or
//! not at all when it is aborted.
use redb::ReadableDatabase;
use vstd::prelude::*;

verus! {

/// redb::Database, an open database file; opaque here.
#[verifier::external_type_specification]
#[verifier::external_body]
pub struct ExDatabase(redb::Database);

/// redb::WriteTransaction, a write transaction of a database; opaque here.
#[verifier::external_type_specification]
#[verifier::external_body]
pub struct ExWriteTransaction(redb::WriteTransaction);

/// redb::Error, the union of redb's error types; opaque here.
#[verifier::external_type_specification]
#[verifier::external_body]
pub struct ExRedbError(redb::Error);

/// The committed entries of every table of the database: (table name, key) to value bytes.
pub uninterp spec fn stored_entries(db: redb::Database) -> Map<(Seq<char>, Seq<char>), Seq<u8>>;

/// The identity of the write transaction open on the database, if one is.
pub uninterp spec fn open_write(db: redb::Database) -> Option<int>;

/// The identity of a write transaction; two live transactions have different ones.
pub uninterp spec fn txn_id(t: redb::WriteTransaction) -> int;

/// What the transaction would commit: the committed entries when it began,
/// updated by its inserts.
pub uninterp spec fn pending_entries(t: redb::WriteTransaction) -> Map<(Seq<char>, Seq<char>), Seq<u8>>;

/// The entries after `value` is written under each of `keys` in `table`.
pub open spec fn entries_after_put(
    entries: Map<(Seq<char>, Seq<char>), Seq<u8>>,
    table: Seq<char>,
    keys: Seq<Seq<char>>,
    value: Seq<u8>,
) -> Map<(Seq<char>, Seq<char>), Seq<u8>> {
    Map::new(
        |e: (Seq<char>, Seq<char>)| entries.contains_key(e) || (e.0 == table && keys.contains(e.1)),
        |e: (Seq<char>, Seq<char>)|
            if e.0 == table && keys.contains(e.1) {
                value
            } else {
                entries[e]
            },
    )
}

/// Relies on redb::Database::create: opens the file at `path`, initialising a
/// new database there when the file is absent or empty; no transaction is open
/// on a database just opened.
#[verifier::external_body]
pub(crate) fn create_database(path: &str) -> (r: Result<redb::Database, redb::Error>)
    ensures
        r matches Ok(db) ==> open_write(db) is None,
{
    redb::Database::create(path).map_err(redb::Error::from)
}

/// Relies on redb::Database::open: opens an existing database file; no
/// transaction is open on a database just opened.
#[verifier::external_body]
pub(crate) fn open_database(path: &str) -> (r: Result<redb::Database, redb::Error>)
    ensures
        r matches Ok(db) ==> open_write(db) is None,
{
    redb::Database::open(path).map_err(redb::Error::from)
}

/// Relies on redb's TableDefinition::new (which asserts a non-empty name),
/// begin_write, open_table and commit: opening a table in a write transaction
/// creates it when absent and leaves an existing one, and its entries, as they are.
#[verifier::external_body]
pub(crate) fn create_table(db: &mut redb::Database, table: &'static str) -> (r: Result<(), redb::Error>)
    requires
        table@.len() > 0,
        open_write(*old(db)) is None,
    ensures
        stored_entries(*final(db)) == stored_entries(*old(db)),
        open_write(*final(db)) is None,
{
    let definition: redb::TableDefinition<&str, &[u8]> = redb::TableDefinition::new(table);
    let txn = db.begin_write()?;
    txn.open_table(definition)?;
    txn.commit()?;
    Ok(())
}

/// Relies on redb::Database::begin_write: starts the database's only write
/// transaction (a second one would wait for the first), seeing the committed entries.
#[verifier::external_body]
pub(crate) fn begin_write(db: &mut redb::Database) -> (r: Result<redb::WriteTransaction, redb::Error>)
    requires
        open_write(*old(db)) is None,
    ensures
        stored_entries(*final(db)) == stored_entries(*old(db)),
        match r {
            Ok(t) => open_write(*final(db)) == Some(txn_id(t)) && pending_entries(t)
                == stored_entries(*old(db)),
            Err(_) => open_write(*final(db)) is None,
        },
{
    db.begin_write().map_err(redb::Error::from)
}

/// Relies on redb's TableDefinition::new (which asserts a non-empty name),
/// WriteTransaction::open_table and Table::insert: the value replaces whatever
/// the transaction held under the key; the table handle is closed on return.
#[verifier::external_body]
pub(crate) fn insert_entry(
    txn: &mut redb::WriteTransaction,
    table: &'static str,
    key: &str,
    value: &Vec<u8>,
) -> (r: Result<(), redb::Error>)
    requires
        table@.len() > 0,
    ensures
        txn_id(*final(txn)) == txn_id(*old(txn)),
        r is Ok ==> pending_entries(*final(txn)) == pending_entries(*old(txn)).insert(
            (table@, key@),
            value@,
        ),
{
    let definition: redb::TableDefinition<&str, &[u8]> = redb::TableDefinition::new(table);
    let mut t = txn.open_table(definition)?;
    t.insert(key, value.as_slice())?;
    Ok(())
}

/// Relies on redb::WriteTransaction::commit: all inserts of the transaction
/// become visible at once; a failed commit leaves no part of them visible,
/// unless the failure came after the new state was made durable.
#[verifier::external_body]
pub(crate) fn commit_write(db: &mut redb::Database, txn: redb::WriteTransaction) -> (r: Result<(), redb::Error>)
    requires
        open_write(*old(db)) == Some(txn_id(txn)),
    ensures
        open_write(*final(db)) is None,
        r is Ok ==> stored_entries(*final(db)) == pending_entries(txn),
        stored_entries(*final(db)) == stored_entries(*old(db)) || stored_entries(*final(db))
            == pending_entries(txn),
{
    txn.commit().map_err(redb::Error::from)
}

/// Relies on redb::WriteTransaction::abort: none of the transaction's inserts
/// become visible, whether or not the abort reports an error.
#[verifier::external_body]
pub(crate) fn abort_write(db: &mut redb::Database, txn: redb::WriteTransaction)
    requires
        open_write(*old(db)) == Some(txn_id(txn)),
    ensures
        open_write(*final(db)) is None,
        stored_entries(*final(db)) == stored_entries(*old(db)),
{
    let _ = txn.abort();
}

/// Relies on redb's TableDefinition::new (which asserts a non-empty name),
/// begin_read, open_table and ReadOnlyTable::get: a read transaction sees the
/// committed entries. Any failure on the way reads as absent.
#[verifier::external_body]
pub(crate) fn read_entry(db: &redb::Database, table: &'static str, key: &str) -> (r: Option<Vec<u8>>)
    requires
        table@.len() > 0,
    ensures
        r matches Some(v) ==> stored_entries(*db).contains_key((table@, key@)) && v@ == stored_entries(
            *db,
        )[(table@, key@)],
        !stored_entries(*db).contains_key((table@, key@)) ==> r is None,
{
    let definition: redb::TableDefinition<&str, &[u8]> = redb::TableDefinition::new(table);
    let txn = db.begin_read().ok()?;
    let t = txn.open_table(definition).ok()?;
    let entry = t.get(key).ok()??;
    Some(entry.value().to_vec())
}

/// Writing no keys changes nothing.
pub proof fn lemma_put_none(
    entries: Map<(Seq<char>, Seq<char>), Seq<u8>>,
    table: Seq<char>,
    value: Seq<u8>,
)
    ensures
        entries_after_put(entries, table, Seq::empty(), value) == entries,
{
    assert(entries_after_put(entries, table, Seq::empty(), value) =~= entries);
}

/// Writing one more key is one more insert.
pub proof fn lemma_put_one_more(
    entries: Map<(Seq<char>, Seq<char>), Seq<u8>>,
    table: Seq<char>,
    keys: Seq<Seq<char>>,
    value: Seq<u8>,
    i: int,
)
    requires
        0 <= i < keys.len(),
    ensures
        entries_after_put(entries, table, keys.subrange(0, i + 1), value) == entries_after_put(
            entries,
            table,
            keys.subrange(0, i),
            value,
        ).insert((table, keys[i]), value),
{
    let a = keys.subrange(0, i + 1);
    let b = keys.subrange(0, i);
    assert forall|k: Seq<char>| a.contains(k) <==> (b.contains(k) || k == keys[i]) by {
        if a.contains(k) {
            let j = choose|j: int| 0 <= j < a.len() && a[j] == k;
            if j < i {
                assert(b[j] == k);
            }
        }
        if b.contains(k) {
            let j = choose|j: int| 0 <= j < b.len() && b[j] == k;
            assert(a[j] == k);
        }
        if k == keys[i] {
            assert(a[i] == k);
        }
    }
    assert(entries_after_put(entries, table, a, value) =~= entries_after_put(
        entries,
        table,
        b,
        value,
    ).insert((table, keys[i]), value));
}

} // verus!
