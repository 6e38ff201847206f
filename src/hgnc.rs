//! Gene lookup clients: the interface that every upstream gene service
//! implements, and an in-memory implementation for tests and offline use.
use crate::error::HGNCError;
use crate::gene::{opt_text, GeneDoc, GeneQuery};
use crate::text::{owned, same_text};
use vstd::prelude::*;

verus! {

/// A source of gene records.
pub trait HGNCData {
    /// The record of the gene that `query` names.
    fn request_gene_data(&self, query: GeneQuery) -> Result<GeneDoc, HGNCError>;

    /// The HGNC identifier of the gene with symbol `symbol`.
    fn request_hgnc_id(&self, symbol: &str) -> Result<String, HGNCError> {
        match self.request_gene_data(GeneQuery::Symbol(symbol)) {
            Ok(doc) => doc.hgnc_id_owned(),
            Err(e) => Err(e),
        }
    }

    /// The symbol of the gene with HGNC identifier `hgnc_id`.
    fn request_gene_symbol(&self, hgnc_id: &str) -> Result<String, HGNCError> {
        match self.request_gene_data(GeneQuery::HgncId(hgnc_id)) {
            Ok(doc) => doc.symbol_owned(),
            Err(e) => Err(e),
        }
    }

    /// The (symbol, HGNC identifier) pair of the gene that `query` names.
    fn request_gene_identifier_pair(&self, query: GeneQuery) -> Result<(String, String), HGNCError> {
        match self.request_gene_data(query) {
            Ok(doc) => doc.symbol_id_pair(),
            Err(e) => Err(e),
        }
    }
}

/// A gene source that serves records from a list of (identifier, record) pairs.
pub struct MockHGNCClient {
    pub docs: Vec<(String, GeneDoc)>,
}

/// The index of the first entry of `docs` whose identifier is `key`, if any.
pub open spec fn first_entry(docs: Seq<(String, GeneDoc)>, key: Seq<char>) -> Option<int>
    decreases docs.len(),
{
    if docs.len() == 0 {
        None
    } else if docs[0].0@ == key {
        Some(0)
    } else {
        match first_entry(docs.drop_first(), key) {
            Some(i) => Some(i + 1),
            None => None,
        }
    }
}

proof fn lemma_first_entry(docs: Seq<(String, GeneDoc)>, key: Seq<char>, i: int)
    requires
        0 <= i <= docs.len(),
        forall|j: int| 0 <= j < i ==> docs[j].0@ != key,
    ensures
        i < docs.len() && docs[i].0@ == key ==> first_entry(docs, key) == Some(i),
        i == docs.len() ==> first_entry(docs, key) is None,
    decreases i,
{
    if i > 0 {
        lemma_first_entry(docs.drop_first(), key, i - 1);
    }
}

impl MockHGNCClient {
    pub fn new(docs: Vec<(String, GeneDoc)>) -> (r: MockHGNCClient)
        ensures
            r.docs == docs,
    {
        MockHGNCClient { docs }
    }

    /// The record stored under the query's identifier (the first such entry),
    /// or an error naming the identifier with no record found.
    pub fn lookup(&self, query: GeneQuery) -> (r: Result<GeneDoc, HGNCError>)
        ensures
            match r {
                Ok(d) => first_entry(self.docs@, query.text()) matches Some(i) && cloned(
                    self.docs@[i].1,
                    d,
                ),
                Err(e) => first_entry(self.docs@, query.text()) is None && (
                e matches HGNCError::UnexpectedNumberOfDocuments { identifier, n_found, n_expected }
                    && identifier@ == query.text() && n_found == 0 && n_expected == 1),
            },
    {
        let identifier = query.inner();
        let mut i: usize = 0;
        while i < self.docs.len()
            invariant
                i <= self.docs@.len(),
                identifier@ == query.text(),
                forall|j: int| 0 <= j < i ==> self.docs@[j].0@ != identifier@,
            decreases self.docs@.len() - i,
        {
            if same_text(self.docs[i].0.as_str(), identifier) {
                proof {
                    lemma_first_entry(self.docs@, identifier@, i as int);
                }
                return Ok(self.docs[i].1.clone());
            }
            i += 1;
        }
        proof {
            lemma_first_entry(self.docs@, identifier@, i as int);
        }
        Err(
            HGNCError::UnexpectedNumberOfDocuments {
                identifier: owned(identifier),
                n_found: 0,
                n_expected: 1,
            },
        )
    }
}

impl HGNCData for MockHGNCClient {
    fn request_gene_data(&self, query: GeneQuery) -> Result<GeneDoc, HGNCError> {
        self.lookup(query)
    }
}

} // verus!

verus! {

fn entry(key: &str, hgnc_id: &str, symbol: &str) -> (r: (String, GeneDoc))
    ensures
        r.0@ == key@,
        r.1.hgnc_id matches Some(h) && h@ == hgnc_id@,
        r.1.symbol matches Some(s) && s@ == symbol@,
{
    (owned(key), GeneDoc::default().with_hgnc_id(hgnc_id).with_symbol(symbol))
}

impl Default for MockHGNCClient {
    /// Records of BRCA1, CLOCK, SHH and SPOCK1, each under its symbol and its
    /// HGNC identifier.
    fn default() -> (r: MockHGNCClient)
        ensures
            r.docs@.len() == 8,
            r.docs@[0].0@ == "BRCA1"@ && r.docs@[1].0@ == "HGNC:1100"@,
            r.docs@[2].0@ == "HGNC:2082"@ && r.docs@[3].0@ == "CLOCK"@,
            r.docs@[4].0@ == "HGNC:10848"@ && r.docs@[5].0@ == "SHH"@,
            r.docs@[6].0@ == "HGNC:11251"@ && r.docs@[7].0@ == "SPOCK1"@,
            forall|i: int| 0 <= i < 8 && i % 2 == 0 ==> opt_text(r.docs@[i].1.hgnc_id) == Some(
                r.docs@[i + 1].1.hgnc_id->Some_0@) && opt_text(r.docs@[i].1.symbol) == opt_text(
                r.docs@[i + 1].1.symbol),
            opt_text(r.docs@[2].1.hgnc_id) == Some("HGNC:2082"@) && opt_text(r.docs@[3].1.symbol)
                == Some("CLOCK"@),
    {
        let mut docs: Vec<(String, GeneDoc)> = Vec::new();
        docs.push(entry("BRCA1", "HGNC:1100", "BRCA1"));
        docs.push(entry("HGNC:1100", "HGNC:1100", "BRCA1"));
        docs.push(entry("HGNC:2082", "HGNC:2082", "CLOCK"));
        docs.push(entry("CLOCK", "HGNC:2082", "CLOCK"));
        docs.push(entry("HGNC:10848", "HGNC:10848", "SHH"));
        docs.push(entry("SHH", "HGNC:10848", "SHH"));
        docs.push(entry("HGNC:11251", "HGNC:11251", "SPOCK1"));
        docs.push(entry("SPOCK1", "HGNC:11251", "SPOCK1"));
        MockHGNCClient::new(docs)
    }
}

} // verus!
