//! Gene records as the HGNC service describes them, and the queries that
//! select one.
use crate::cache::Cacheable;
use crate::error::HGNCError;
use crate::hgvs_format::{before_first_colon, is_hgnc_id};
use crate::text::owned;
use vstd::prelude::*;

verus! {

/// A gene identifier: a symbol (e.g. CLOCK) or an HGNC identifier (e.g. HGNC:2082).
#[derive(Clone, Copy, Debug)]
pub enum GeneQuery<'a> {
    Symbol(&'a str),
    HgncId(&'a str),
}

impl<'a> GeneQuery<'a> {
    /// The identifier text of the query.
    pub open spec fn text(&self) -> Seq<char> {
        match self {
            GeneQuery::Symbol(s) => s@,
            GeneQuery::HgncId(s) => s@,
        }
    }

    pub fn inner(&self) -> (r: &'a str)
        ensures
            r@ == self.text(),
    {
        match self {
            GeneQuery::Symbol(s) => s,
            GeneQuery::HgncId(s) => s,
        }
    }

    /// The query for `gene`: by HGNC identifier when it is one, else by symbol.
    pub fn from_identifier(gene: &'a str) -> (r: GeneQuery<'a>)
        ensures
            r.text() == gene@,
            r is HgncId <==> before_first_colon(gene@) == seq!['H', 'G', 'N', 'C'],
    {
        if is_hgnc_id(gene) {
            GeneQuery::HgncId(gene)
        } else {
            GeneQuery::Symbol(gene)
        }
    }
}

/// The full record of one gene.
#[derive(Debug, Clone)]
pub struct GeneDoc {
    pub ena: Vec<String>,
    pub orphanet: Option<i64>,
    pub hgnc_id: Option<String>,
    pub pubmed_id: Vec<i64>,
    pub name: Option<String>,
    pub uuid: Option<String>,
    pub ensembl_gene_id: Option<String>,
    pub locus_group: Option<String>,
    pub mgd_id: Vec<String>,
    pub location: Option<String>,
    pub status: Option<String>,
    pub cosmic: Option<String>,
    pub ucsc_id: Option<String>,
    pub date_name_changed: Option<String>,
    pub prev_name: Vec<String>,
    pub ccds_id: Vec<String>,
    pub mane_select: Vec<String>,
    pub refseq_accession: Vec<String>,
    pub rgd_id: Vec<String>,
    pub date_approved_reserved: Option<String>,
    pub entrez_id: Option<String>,
    pub uniprot_ids: Vec<String>,
    pub lsdb: Vec<String>,
    pub locus_type: Option<String>,
    pub gene_group: Vec<String>,
    pub alias_symbol: Vec<String>,
    pub agr: Option<String>,
    pub date_modified: Option<String>,
    pub omim_id: Vec<String>,
    pub gene_group_id: Vec<i32>,
    pub vega_id: Option<String>,
    pub symbol: Option<String>,
}

pub open spec fn opt_text(o: Option<String>) -> Option<Seq<char>> {
    match o {
        Some(s) => Some(s@),
        None => None,
    }
}

/// The keys of a gene record: its symbol, then its HGNC identifier, each when present.
pub open spec fn gene_keys(symbol: Option<String>, hgnc_id: Option<String>) -> Seq<Seq<char>> {
    let s = match symbol {
        Some(s) => seq![s@],
        None => Seq::empty(),
    };
    let h = match hgnc_id {
        Some(h) => seq![h@],
        None => Seq::empty(),
    };
    s + h
}

/// A record with every field empty.
pub open spec fn is_empty_doc(d: GeneDoc) -> bool {
    &&& d.ena@.len() == 0 && d.pubmed_id@.len() == 0 && d.mgd_id@.len() == 0
    &&& d.prev_name@.len() == 0 && d.ccds_id@.len() == 0 && d.mane_select@.len() == 0
    &&& d.refseq_accession@.len() == 0 && d.rgd_id@.len() == 0 && d.uniprot_ids@.len() == 0
    &&& d.lsdb@.len() == 0 && d.gene_group@.len() == 0 && d.alias_symbol@.len() == 0
    &&& d.omim_id@.len() == 0 && d.gene_group_id@.len() == 0
    &&& d.orphanet is None && d.hgnc_id is None && d.name is None && d.uuid is None
    &&& d.ensembl_gene_id is None && d.locus_group is None && d.location is None
    &&& d.status is None && d.cosmic is None && d.ucsc_id is None && d.date_name_changed is None
    &&& d.date_approved_reserved is None && d.entrez_id is None && d.locus_type is None
    &&& d.agr is None && d.date_modified is None && d.vega_id is None && d.symbol is None
}

impl Default for GeneDoc {
    fn default() -> (r: GeneDoc)
        ensures
            is_empty_doc(r),
    {
        GeneDoc {
            ena: Vec::new(),
            orphanet: None,
            hgnc_id: None,
            pubmed_id: Vec::new(),
            name: None,
            uuid: None,
            ensembl_gene_id: None,
            locus_group: None,
            mgd_id: Vec::new(),
            location: None,
            status: None,
            cosmic: None,
            ucsc_id: None,
            date_name_changed: None,
            prev_name: Vec::new(),
            ccds_id: Vec::new(),
            mane_select: Vec::new(),
            refseq_accession: Vec::new(),
            rgd_id: Vec::new(),
            date_approved_reserved: None,
            entrez_id: None,
            uniprot_ids: Vec::new(),
            lsdb: Vec::new(),
            locus_type: None,
            gene_group: Vec::new(),
            alias_symbol: Vec::new(),
            agr: None,
            date_modified: None,
            omim_id: Vec::new(),
            gene_group_id: Vec::new(),
            vega_id: None,
            symbol: None,
        }
    }
}

impl GeneDoc {
    /// A record with every field empty.
    pub fn new() -> (r: Self)
        ensures
            is_empty_doc(r),
    {
        Self::default()
    }

    pub fn hgnc_id(&self) -> (r: Option<&str>)
        ensures
            match r {
                Some(h) => self.hgnc_id matches Some(x) && h@ == x@,
                None => self.hgnc_id is None,
            },
    {
        match &self.hgnc_id {
            Some(h) => Some(h.as_str()),
            None => None,
        }
    }

    pub fn symbol(&self) -> (r: Option<&str>)
        ensures
            match r {
                Some(s) => self.symbol matches Some(x) && s@ == x@,
                None => self.symbol is None,
            },
    {
        match &self.symbol {
            Some(s) => Some(s.as_str()),
            None => None,
        }
    }

    /// The record with its HGNC identifier set to `hgnc_id`.
    pub fn change_hgnc_id(self, hgnc_id: &str) -> (r: Self)
        ensures
            r.hgnc_id matches Some(h) && h@ == hgnc_id@,
            r == (GeneDoc { hgnc_id: r.hgnc_id, ..self }),
    {
        let mut d = self;
        d.hgnc_id = Some(owned(hgnc_id));
        d
    }

    /// The record with its symbol set to `symbol`.
    pub fn change_symbol(self, symbol: &str) -> (r: Self)
        ensures
            r.symbol matches Some(s) && s@ == symbol@,
            r == (GeneDoc { symbol: r.symbol, ..self }),
    {
        let mut d = self;
        d.symbol = Some(owned(symbol));
        d
    }

    /// Same as `change_hgnc_id`.
    pub fn with_hgnc_id(self, hgnc_id: &str) -> (r: Self)
        ensures
            r.hgnc_id matches Some(h) && h@ == hgnc_id@,
            r == (GeneDoc { hgnc_id: r.hgnc_id, ..self }),
    {
        self.change_hgnc_id(hgnc_id)
    }

    /// Same as `change_symbol`.
    pub fn with_symbol(self, symbol: &str) -> (r: Self)
        ensures
            r.symbol matches Some(s) && s@ == symbol@,
            r == (GeneDoc { symbol: r.symbol, ..self }),
    {
        self.change_symbol(symbol)
    }

    /// The HGNC identifier, which the record must hold.
    pub fn hgnc_id_owned(&self) -> (r: Result<String, HGNCError>)
        ensures
            match r {
                Ok(h) => self.hgnc_id matches Some(x) && h@ == x@,
                Err(e) => self.hgnc_id is None && e is MissingElementInDocument,
            },
    {
        match &self.hgnc_id {
            Some(h) => Ok(h.clone()),
            None => Err(HGNCError::MissingElementInDocument { desired_element: owned("hgnc_id") }),
        }
    }

    /// The gene symbol, which the record must hold.
    pub fn symbol_owned(&self) -> (r: Result<String, HGNCError>)
        ensures
            match r {
                Ok(s) => self.symbol matches Some(x) && s@ == x@,
                Err(e) => self.symbol is None && e is MissingElementInDocument,
            },
    {
        match &self.symbol {
            Some(s) => Ok(s.clone()),
            None => Err(HGNCError::MissingElementInDocument { desired_element: owned("symbol") }),
        }
    }

    /// The (symbol, HGNC identifier) pair, which the record must hold.
    pub fn symbol_id_pair(&self) -> (r: Result<(String, String), HGNCError>)
        ensures
            match r {
                Ok((s, h)) => opt_text(self.symbol) == Some(s@) && opt_text(self.hgnc_id) == Some(h@),
                Err(e) => (self.symbol is None || self.hgnc_id is None) && e is MissingElementInDocument,
            },
    {
        let s = match self.symbol_owned() {
            Ok(s) => s,
            Err(e) => return Err(e),
        };
        let h = match self.hgnc_id_owned() {
            Ok(h) => h,
            Err(e) => return Err(e),
        };
        Ok((s, h))
    }
}

impl Cacheable for GeneDoc {
    open spec fn key_views(&self) -> Seq<Seq<char>> {
        gene_keys(self.symbol, self.hgnc_id)
    }

    open spec fn table_spec() -> Seq<char> {
        "pivot::gene::GeneDoc"@
    }

    fn keys(&self) -> (r: Vec<String>) {
        let mut keys: Vec<String> = Vec::new();
        match &self.symbol {
            Some(s) => keys.push(s.clone()),
            None => {},
        }
        match &self.hgnc_id {
            Some(h) => keys.push(h.clone()),
            None => {},
        }
        assert(keys@.map_values(|k: String| k@) =~= self.key_views());
        keys
    }

    fn table_name() -> (r: &'static str) {
        proof {
            reveal_strlit("pivot::gene::GeneDoc");
        }
        "pivot::gene::GeneDoc"
    }
}

/// The header of an HGNC search response.
#[derive(Debug, Clone)]
pub struct ResponseHeader {
    pub status: i32,
    pub q_time: i32,
}

/// The body of an HGNC search response: the matching records.
#[derive(Debug, Clone)]
pub struct Response {
    pub num_found: i32,
    pub start: i32,
    pub num_found_exact: bool,
    pub docs: Vec<GeneDoc>,
}

/// An HGNC search response.
#[derive(Debug, Clone)]
pub struct GeneResponse {
    pub response_header: ResponseHeader,
    pub response: Response,
}

impl GeneResponse {
    /// The only record of the response; any other number of records is an
    /// error that names the query and how many were found.
    pub fn single_doc(self, identifier: &str) -> (r: Result<GeneDoc, HGNCError>)
        ensures
            match r {
                Ok(d) => self.response.docs@.len() == 1 && d == self.response.docs@[0],
                Err(e) => self.response.docs@.len() != 1 && (e matches HGNCError::UnexpectedNumberOfDocuments {
                    identifier: i,
                    n_found,
                    n_expected,
                } && i@ == identifier@ && n_found == self.response.docs@.len() && n_expected == 1),
            },
    {
        let mut docs = self.response.docs;
        let n = docs.len();
        if n == 1 {
            Ok(docs.remove(0))
        } else {
            Err(
                HGNCError::UnexpectedNumberOfDocuments {
                    identifier: owned(identifier),
                    n_found: n,
                    n_expected: 1,
                },
            )
        }
    }
}

} // verus!

verus! {

/// Whether the regular expression `pattern` matches `text`, or `None` when the
/// pattern does not compile.
pub uninterp spec fn regex_outcome(pattern: Seq<char>, text: Seq<char>) -> Option<bool>;

/// Relies on regex::Regex::new and Regex::is_match: the outcome depends on the
/// pattern and the text alone.
#[verifier::external_body]
fn regex_is_match(pattern: &str, text: &str) -> (r: Option<bool>)
    ensures
        r == regex_outcome(pattern@, text@),
{
    regex::Regex::new(pattern).ok().map(|re| re.is_match(text))
}

/// The pattern of a well-formed HGNC identifier.
pub open spec fn hgnc_id_pattern() -> Seq<char> {
    "^HGNC:[0-9_]+$"@
}

impl<'a> GeneQuery<'a> {
    /// The query for a causative gene: by HGNC identifier when `gene` is a
    /// well-formed one (`HGNC:` and digits), else by symbol.
    pub fn for_causative_gene(gene: &'a str) -> (r: GeneQuery<'a>)
        ensures
            r.text() == gene@,
            r is HgncId <==> regex_outcome(hgnc_id_pattern(), gene@) == Some(true),
    {
        match regex_is_match("^HGNC:[0-9_]+$", gene) {
            Some(true) => GeneQuery::HgncId(gene),
            _ => GeneQuery::Symbol(gene),
        }
    }
}

} // verus!
