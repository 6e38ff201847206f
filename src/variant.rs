//! A validated HGVS variant, keyed in the cache by its transcript-level HGVS
//! string, and the interpretation record derived from it.
use crate::cache::Cacheable;
use crate::error::HGVSError;
use crate::hgvs_format::{before_first_colon, is_c_hgvs, is_hgnc_id, is_n_hgvs};
use crate::text::{contains_char, has_prefix, owned, same_text};
use crate::zygosity::{allele_term_spec, get_allele_term, AlleleCount, AlleleTerm, ChromosomalSex};
use vstd::prelude::*;

verus! {

/// A variant as confirmed by the validation service, on one genome assembly.
#[derive(Clone, Debug)]
pub struct HgvsVariant {
    /// Genome build, e.g. hg38
    pub assembly: String,
    /// Chromosome, e.g. chr17
    pub chr: String,
    /// 1-based position on the chromosome
    pub position: u32,
    pub ref_allele: String,
    pub alt_allele: String,
    /// Gene symbol, e.g. FBN1
    pub symbol: String,
    /// HGNC identifier, e.g. HGNC:3603
    pub hgnc_id: String,
    /// Transcript accession, e.g. NM_000138.5
    pub transcript: String,
    /// Allele on the transcript, e.g. c.8242G>T
    pub allele: String,
    /// The query string `TRANSCRIPT:ALLELE`, e.g. NM_000138.5:c.8242G>T
    pub transcript_hgvs: String,
    /// Genomic HGVS, e.g. NC_000015.10:g.48411364C>A
    pub g_hgvs: String,
    /// Protein-level HGVS, when there is one
    pub p_hgvs: Option<String>,
}

/// One HGVS expression of a variant: its syntax (`hgvs.c`, `hgvs.n`, `hgvs.g`,
/// `hgvs.p`) and its value.
#[derive(Clone, Debug)]
pub struct HgvsExpression {
    pub syntax: String,
    pub value: String,
}

/// What a clinical variant interpretation records of a validated variant.
#[derive(Clone, Debug)]
pub struct VariantInterpretation {
    /// Identifier of the variation: its genomic HGVS
    pub variation_id: String,
    pub gene_hgnc_id: String,
    pub gene_symbol: String,
    pub expressions: Vec<HgvsExpression>,
    pub genome_assembly: String,
    pub chrom: String,
    pub pos: u64,
    pub reference: String,
    pub alternate: String,
    pub allelic_state: AlleleTerm,
}

/// The (syntax, value) pairs of the expressions of `v`, in order: the
/// transcript-level one when the allele is coding (`c.`) or non-coding (`n.`),
/// then the genomic one, then the protein-level one when present.
pub open spec fn expressions_of(v: HgvsVariant) -> Seq<(Seq<char>, Seq<char>)> {
    let c = if has_prefix(v.allele@, seq!['c', '.']) {
        seq![("hgvs.c"@, v.transcript_hgvs@)]
    } else {
        Seq::empty()
    };
    let n = if has_prefix(v.allele@, seq!['n', '.']) {
        seq![("hgvs.n"@, v.transcript_hgvs@)]
    } else {
        Seq::empty()
    };
    let p = match v.p_hgvs {
        Some(p) => seq![("hgvs.p"@, p@)],
        None => Seq::empty(),
    };
    c + n + seq![("hgvs.g"@, v.g_hgvs@)] + p
}

pub open spec fn expression_views(es: Seq<HgvsExpression>) -> Seq<(Seq<char>, Seq<char>)> {
    es.map_values(|e: HgvsExpression| (e.syntax@, e.value@))
}

/// Whether `gene` names the gene of a variant whose symbol and HGNC
/// identifier are given: an HGNC identifier is compared with the identifier,
/// anything else with the symbol.
pub open spec fn gene_matches(gene: Seq<char>, symbol: Seq<char>, hgnc_id: Seq<char>) -> bool {
    if before_first_colon(gene) == seq!['H', 'G', 'N', 'C'] {
        gene == hgnc_id
    } else {
        gene == symbol
    }
}

fn expression(syntax: &str, value: &String) -> (r: HgvsExpression)
    ensures
        r.syntax@ == syntax@,
        r.value@ == value@,
{
    HgvsExpression { syntax: owned(syntax), value: value.clone() }
}

impl HgvsVariant {
    #[allow(clippy::too_many_arguments)]
    pub fn new(
        assembly: &str,
        chr: &str,
        position: u32,
        ref_allele: &str,
        alt_allele: &str,
        symbol: &str,
        hgnc_id: &str,
        transcript: &str,
        allele: &str,
        transcript_hgvs: &str,
        g_hgvs: &str,
        p_hgvs: Option<&str>,
    ) -> (r: Self)
        ensures
            r.assembly@ == assembly@,
            r.chr@ == chr@,
            r.position == position,
            r.ref_allele@ == ref_allele@,
            r.alt_allele@ == alt_allele@,
            r.symbol@ == symbol@,
            r.hgnc_id@ == hgnc_id@,
            r.transcript@ == transcript@,
            r.allele@ == allele@,
            r.transcript_hgvs@ == transcript_hgvs@,
            r.g_hgvs@ == g_hgvs@,
            match p_hgvs {
                Some(p) => r.p_hgvs matches Some(q) && q@ == p@,
                None => r.p_hgvs is None,
            },
    {
        HgvsVariant {
            assembly: owned(assembly),
            chr: owned(chr),
            position,
            ref_allele: owned(ref_allele),
            alt_allele: owned(alt_allele),
            symbol: owned(symbol),
            hgnc_id: owned(hgnc_id),
            transcript: owned(transcript),
            allele: owned(allele),
            transcript_hgvs: owned(transcript_hgvs),
            g_hgvs: owned(g_hgvs),
            p_hgvs: match p_hgvs {
                Some(p) => Some(owned(p)),
                None => None,
            },
        }
    }

    /// As `new`, with the HGNC identifier given before the gene symbol.
    #[allow(clippy::too_many_arguments)]
    pub fn new_from_strs(
        assembly: &str,
        chr: &str,
        position: u32,
        ref_allele: &str,
        alt_allele: &str,
        hgnc_id: &str,
        gene_symbol: &str,
        transcript: &str,
        allele: &str,
        c_hgvs: &str,
        g_hgvs: &str,
        p_hgvs: Option<&str>,
    ) -> (r: Self)
        ensures
            r.assembly@ == assembly@,
            r.chr@ == chr@,
            r.position == position,
            r.ref_allele@ == ref_allele@,
            r.alt_allele@ == alt_allele@,
            r.symbol@ == gene_symbol@,
            r.hgnc_id@ == hgnc_id@,
            r.transcript@ == transcript@,
            r.allele@ == allele@,
            r.transcript_hgvs@ == c_hgvs@,
            r.g_hgvs@ == g_hgvs@,
            match p_hgvs {
                Some(p) => r.p_hgvs matches Some(q) && q@ == p@,
                None => r.p_hgvs is None,
            },
    {
        Self::new(
            assembly,
            chr,
            position,
            ref_allele,
            alt_allele,
            gene_symbol,
            hgnc_id,
            transcript,
            allele,
            c_hgvs,
            g_hgvs,
            p_hgvs,
        )
    }

    pub fn assembly(&self) -> (r: &str)
        ensures
            r@ == self.assembly@,
    {
        self.assembly.as_str()
    }

    pub fn chr(&self) -> (r: &str)
        ensures
            r@ == self.chr@,
    {
        self.chr.as_str()
    }

    pub fn position(&self) -> (r: u32)
        ensures
            r == self.position,
    {
        self.position
    }

    pub fn ref_allele(&self) -> (r: &str)
        ensures
            r@ == self.ref_allele@,
    {
        self.ref_allele.as_str()
    }

    pub fn alt_allele(&self) -> (r: &str)
        ensures
            r@ == self.alt_allele@,
    {
        self.alt_allele.as_str()
    }

    pub fn hgnc_id(&self) -> (r: &str)
        ensures
            r@ == self.hgnc_id@,
    {
        self.hgnc_id.as_str()
    }

    pub fn gene_symbol(&self) -> (r: &str)
        ensures
            r@ == self.symbol@,
    {
        self.symbol.as_str()
    }

    pub fn transcript(&self) -> (r: &str)
        ensures
            r@ == self.transcript@,
    {
        self.transcript.as_str()
    }

    pub fn allele(&self) -> (r: &str)
        ensures
            r@ == self.allele@,
    {
        self.allele.as_str()
    }

    pub fn transcript_hgvs(&self) -> (r: &str)
        ensures
            r@ == self.transcript_hgvs@,
    {
        self.transcript_hgvs.as_str()
    }

    pub fn g_hgvs(&self) -> (r: &str)
        ensures
            r@ == self.g_hgvs@,
    {
        self.g_hgvs.as_str()
    }

    pub fn p_hgvs(&self) -> (r: Option<String>)
        ensures
            r == self.p_hgvs,
    {
        match &self.p_hgvs {
            Some(p) => Some(p.clone()),
            None => None,
        }
    }

    /// Whether the variant lies on the X chromosome: its chromosome name holds an `X`.
    pub fn is_x_chromosomal(&self) -> (r: bool)
        ensures
            r == self.chr@.contains('X'),
    {
        contains_char(self.chr.as_str(), 'X')
    }

    /// Whether the variant lies on the Y chromosome: its chromosome name holds a `Y`.
    pub fn is_y_chromosomal(&self) -> (r: bool)
        ensures
            r == self.chr@.contains('Y'),
    {
        contains_char(self.chr.as_str(), 'Y')
    }

    /// Checks that `gene` (a symbol or an HGNC identifier) is the variant's gene.
    pub fn validate_against_gene(&self, gene: &str) -> (r: Result<(), HGVSError>)
        ensures
            r is Ok <==> gene_matches(gene@, self.symbol@, self.hgnc_id@),
            r matches Err(e) ==> (e matches HGVSError::MismatchingGeneData {
                inputted_gene,
                hgvs,
                actual_gene,
                ..
            } && inputted_gene@ == gene@ && hgvs@ == self.transcript_hgvs@ && actual_gene@
                == self.hgnc_id@),
    {
        let by_id = is_hgnc_id(gene);
        let expected = if by_id {
            self.hgnc_id.as_str()
        } else {
            self.symbol.as_str()
        };
        if same_text(gene, expected) {
            Ok(())
        } else {
            Err(
                HGVSError::MismatchingGeneData {
                    id_type: owned(
                        if by_id {
                            "HGNC ID"
                        } else {
                            "gene symbol"
                        },
                    ),
                    inputted_gene: owned(gene),
                    hgvs: self.transcript_hgvs.clone(),
                    actual_gene: self.hgnc_id.clone(),
                },
            )
        }
    }

    /// The HGVS expressions of the variant, in the order of `expressions_of`.
    pub fn expressions(&self) -> (r: Vec<HgvsExpression>)
        ensures
            expression_views(r@) == expressions_of(*self),
    {
        let mut es: Vec<HgvsExpression> = Vec::new();
        if is_c_hgvs(self.allele.as_str()) {
            es.push(expression("hgvs.c", &self.transcript_hgvs));
        }
        if is_n_hgvs(self.allele.as_str()) {
            es.push(expression("hgvs.n", &self.transcript_hgvs));
        }
        es.push(expression("hgvs.g", &self.g_hgvs));
        match &self.p_hgvs {
            Some(p) => es.push(expression("hgvs.p", p)),
            None => {},
        }
        assert(expression_views(es@) =~= expressions_of(*self));
        es
    }

    /// The interpretation record of the variant for an individual of the given
    /// chromosomal sex carrying it on `allele_count` alleles; fails when the
    /// allelic data contradict each other.
    pub fn create_variant_interpretation(
        &self,
        allele_count: AlleleCount,
        sex: ChromosomalSex,
    ) -> (r: Result<VariantInterpretation, HGVSError>)
        ensures
            match r {
                Ok(vi) => allele_term_spec(
                    sex,
                    allele_count,
                    self.chr@.contains('X'),
                    self.chr@.contains('Y'),
                ) == Some(vi.allelic_state) && vi.variation_id@ == self.g_hgvs@ && vi.gene_hgnc_id@
                    == self.hgnc_id@ && vi.gene_symbol@ == self.symbol@ && expression_views(
                    vi.expressions@,
                ) == expressions_of(*self) && vi.genome_assembly@ == self.assembly@ && vi.chrom@
                    == self.chr@ && vi.pos == self.position as u64 && vi.reference@
                    == self.ref_allele@ && vi.alternate@ == self.alt_allele@,
                Err(e) => allele_term_spec(
                    sex,
                    allele_count,
                    self.chr@.contains('X'),
                    self.chr@.contains('Y'),
                ) is None && e == (HGVSError::ContradictoryAllelicData {
                    chromosomal_sex: sex,
                    allele_count,
                    is_x: self.chr@.contains('X'),
                    is_y: self.chr@.contains('Y'),
                }),
            },
    {
        let allelic_state = match get_allele_term(
            sex,
            allele_count,
            self.is_x_chromosomal(),
            self.is_y_chromosomal(),
        ) {
            Ok(t) => t,
            Err(e) => return Err(e),
        };
        Ok(
            VariantInterpretation {
                variation_id: self.g_hgvs.clone(),
                gene_hgnc_id: self.hgnc_id.clone(),
                gene_symbol: self.symbol.clone(),
                expressions: self.expressions(),
                genome_assembly: self.assembly.clone(),
                chrom: self.chr.clone(),
                pos: self.position as u64,
                reference: self.ref_allele.clone(),
                alternate: self.alt_allele.clone(),
                allelic_state,
            },
        )
    }
}

impl Cacheable for HgvsVariant {
    open spec fn key_views(&self) -> Seq<Seq<char>> {
        seq![self.transcript_hgvs@]
    }

    open spec fn table_spec() -> Seq<char> {
        "pivot::variant::HgvsVariant"@
    }

    fn keys(&self) -> (r: Vec<String>) {
        let r = vec![self.transcript_hgvs.clone()];
        assert(r@.map_values(|k: String| k@) =~= self.key_views());
        r
    }

    fn table_name() -> (r: &'static str) {
        proof {
            reveal_strlit("pivot::variant::HgvsVariant");
        }
        "pivot::variant::HgvsVariant"
    }
}

} // verus!
