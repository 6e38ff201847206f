use pivot::cache::{Cacheable, Cacher};
use pivot::error::HGNCError;
use pivot::gene::{GeneDoc, GeneQuery};
use pivot::hgnc::{HGNCData, MockHGNCClient};
use pivot::read_through::{finish, lookup, Lookup, ReadThroughError};
use pivot::variant::HgvsVariant;
use std::cell::Cell;
use std::time::{SystemTime, UNIX_EPOCH};

fn temp_path(name: &str) -> String {
    let nanos = SystemTime::now().duration_since(UNIX_EPOCH).unwrap().as_nanos();
    format!("/tmp/pivot-{}-{}.redb", name, nanos)
}

fn encode(doc: &GeneDoc) -> Vec<u8> {
    format!("{:?}|{:?}|{:?}", doc.symbol, doc.hgnc_id, doc.location).into_bytes()
}

fn doc(symbol: &str, id: &str, location: &str) -> GeneDoc {
    let mut d = GeneDoc::new().with_symbol(symbol).with_hgnc_id(id);
    d.location = Some(location.to_string());
    d
}

#[test]
fn put_then_find_under_every_key() {
    let cacher = Cacher::<GeneDoc>::new(temp_path("keys"));
    cacher.init_cache().unwrap();
    let mut db = cacher.open_cache().unwrap();
    let clock = doc("CLOCK", "HGNC:2082", "4q12");
    cacher.cache_object(&clock, &encode(&clock), &mut db).unwrap();
    for key in clock.keys() {
        assert_eq!(cacher.find_cache_entry(&key, &db), Some(encode(&clock)));
    }
    assert_eq!(cacher.find_cache_entry("janet smith", &db), None);
}

#[test]
fn overwrite_shared_keys() {
    let cacher = Cacher::<GeneDoc>::new(temp_path("overwrite"));
    cacher.init_cache().unwrap();
    let mut db = cacher.open_cache().unwrap();
    let first = doc("ZNF3", "HGNC:13089", "7q22.1");
    let second = doc("ZNF3", "HGNC:99999", "7q22.2");
    cacher.cache_object(&first, &encode(&first), &mut db).unwrap();
    cacher.cache_object(&second, &encode(&second), &mut db).unwrap();
    assert_eq!(cacher.find_cache_entry("ZNF3", &db), Some(encode(&second)));
    assert_eq!(cacher.find_cache_entry("HGNC:99999", &db), Some(encode(&second)));
    assert_eq!(cacher.find_cache_entry("HGNC:13089", &db), Some(encode(&first)));
}

#[test]
fn reinit_keeps_entries_and_tables_are_per_type() {
    let path = temp_path("reinit");
    let genes = Cacher::<GeneDoc>::new(path.clone());
    genes.init_cache().unwrap();
    {
        let mut db = genes.open_cache().unwrap();
        let shh = doc("SHH", "HGNC:10848", "7q36.3");
        genes.cache_object(&shh, &encode(&shh), &mut db).unwrap();
    }
    genes.init_cache().unwrap();
    let variants = Cacher::<HgvsVariant>::new(path.clone());
    variants.init_cache().unwrap();
    let db = genes.open_cache().unwrap();
    assert!(genes.find_cache_entry("SHH", &db).is_some());
    assert!(variants.find_cache_entry("SHH", &db).is_none());
    assert_eq!(genes.cache_file_path(), &path);
}

#[test]
fn open_missing_file_fails() {
    let cacher = Cacher::<GeneDoc>::new(temp_path("missing"));
    assert!(cacher.open_cache().is_err());
}

/// An upstream that answers once and fails on every later call.
struct OneShot {
    inner: MockHGNCClient,
    calls: Cell<u32>,
}

impl HGNCData for OneShot {
    fn request_gene_data(&self, query: GeneQuery) -> Result<GeneDoc, HGNCError> {
        self.calls.set(self.calls.get() + 1);
        if self.calls.get() > 1 {
            return Err(HGNCError::Request("upstream called twice".to_string()));
        }
        self.inner.request_gene_data(query)
    }
}

fn cached_get(
    cacher: &Cacher<GeneDoc>,
    db: &mut redb::Database,
    upstream: &OneShot,
    symbol: &str,
) -> Result<Vec<u8>, ReadThroughError<HGNCError>> {
    match lookup(cacher, db, symbol) {
        Lookup::Hit(bytes) => Ok(bytes),
        Lookup::Fetch => {
            let fetched = upstream
                .request_gene_data(GeneQuery::Symbol(symbol))
                .map(|d| {
                    let b = encode(&d);
                    (d, b)
                });
            finish(cacher, db, fetched).map(|d| encode(&d))
        }
    }
}

#[test]
fn clock_twice_against_cold_store() {
    let cacher = Cacher::<GeneDoc>::new(temp_path("clock"));
    cacher.init_cache().unwrap();
    let mut db = cacher.open_cache().unwrap();
    let upstream = OneShot { inner: MockHGNCClient::default(), calls: Cell::new(0) };
    let first = cached_get(&cacher, &mut db, &upstream, "CLOCK").unwrap();
    let second = cached_get(&cacher, &mut db, &upstream, "CLOCK").unwrap();
    assert_eq!(first, second);
    assert_eq!(upstream.calls.get(), 1);
    assert_eq!(cacher.find_cache_entry("CLOCK", &db), Some(first.clone()));
    assert_eq!(cacher.find_cache_entry("HGNC:2082", &db), Some(first));
}

#[test]
fn upstream_failure_is_passed_on_and_nothing_written() {
    let cacher = Cacher::<GeneDoc>::new(temp_path("fail"));
    cacher.init_cache().unwrap();
    let mut db = cacher.open_cache().unwrap();
    let upstream = OneShot { inner: MockHGNCClient::new(vec![]), calls: Cell::new(0) };
    match cached_get(&cacher, &mut db, &upstream, "NOPE") {
        Err(ReadThroughError::Upstream(HGNCError::UnexpectedNumberOfDocuments { identifier, .. })) => {
            assert_eq!(identifier, "NOPE")
        }
        _ => panic!("expected the upstream error"),
    }
    assert!(cacher.find_cache_entry("NOPE", &db).is_none());
}

#[test]
fn variant_keys_are_the_query_string() {
    let v = HgvsVariant::new(
        "hg38", "chr11", 1997235, "C", "A", "H19", "HGNC:4713", "NR_002196.1", "n.601G>T",
        "NR_002196.1:n.601G>T", "NC_000011.10:g.1997235C>A", None,
    );
    assert_eq!(v.keys(), vec!["NR_002196.1:n.601G>T".to_string()]);
    assert_eq!(doc("A", "HGNC:1", "x").keys(), vec!["A".to_string(), "HGNC:1".to_string()]);
    assert!(GeneDoc::new().keys().is_empty());
    assert_ne!(GeneDoc::table_name(), HgvsVariant::table_name());
}
