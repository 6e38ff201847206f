//! A variant validated on one assembly, as the batch variant manager keeps it.
use crate::error::HGVSError;
use crate::text::{contains_char, owned, same_text};
use crate::hgvs_format::is_hgnc_id;
use crate::variant::{expression_views, gene_matches, HgvsExpression, VariantInterpretation};
use crate::zygosity::AlleleTerm;
use vstd::prelude::*;
use vstd::string::StringExecFns;

verus! {

#[derive(Debug, Clone)]
pub struct ValidatedHgvs {
    /// Genome build, e.g. hg38
    pub assembly: String,
    /// Chromosome, e.g. chr17
    pub chr: String,
    /// 1-based position on the chromosome
    pub position: u64,
    pub ref_allele: String,
    pub alt_allele: String,
    /// HGNC identifier, e.g. HGNC:3603
    pub hgnc_id: String,
    /// Gene symbol, e.g. FBN1
    pub gene_symbol: String,
    /// Transcript accession, e.g. NM_000138.5
    pub transcript: String,
    /// Allele on the transcript, e.g. c.8242G>T
    pub allele: String,
    /// Genomic HGVS, e.g. NC_000015.10:g.48411364C>A
    pub g_hgvs: String,
    /// Protein-level HGVS, when there is one
    pub p_hgvs: Option<String>,
}

/// The allelic state recorded for a variant carried on `allele_count` alleles:
/// two alleles are homozygous; one allele on the X chromosome is hemizygous;
/// otherwise heterozygous.
pub open spec fn simple_allele_term(allele_count: usize, is_x: bool) -> AlleleTerm {
    if allele_count == 2 {
        AlleleTerm::Homozygous
    } else if is_x {
        AlleleTerm::Hemizygous
    } else {
        AlleleTerm::Heterozygous
    }
}

/// The (syntax, value) pairs of a validated variant's expressions: the coding
/// one (`transcript:allele`), the genomic one, and the protein-level one when present.
pub open spec fn validated_expressions(v: ValidatedHgvs) -> Seq<(Seq<char>, Seq<char>)> {
    let p = match v.p_hgvs {
        Some(p) => seq![("hgvs.p"@, p@)],
        None => Seq::empty(),
    };
    seq![("hgvs.c"@, v.transcript@ + ":"@ + v.allele@), ("hgvs.g"@, v.g_hgvs@)] + p
}

impl ValidatedHgvs {
    #[allow(clippy::too_many_arguments)]
    pub fn new(
        assembly: String,
        chr: String,
        position: u64,
        ref_allele: String,
        alt_allele: String,
        hgnc_id: String,
        gene_symbol: String,
        transcript: String,
        allele: String,
        g_hgvs: String,
        p_hgvs: Option<String>,
    ) -> (r: Self)
        ensures
            r == (ValidatedHgvs {
                assembly,
                chr,
                position,
                ref_allele,
                alt_allele,
                hgnc_id,
                gene_symbol,
                transcript,
                allele,
                g_hgvs,
                p_hgvs,
            }),
    {
        ValidatedHgvs {
            assembly,
            chr,
            position,
            ref_allele,
            alt_allele,
            hgnc_id,
            gene_symbol,
            transcript,
            allele,
            g_hgvs,
            p_hgvs,
        }
    }

    pub fn assembly(&self) -> (r: &str)
        ensures
            r@ == self.assembly@,
    {
        self.assembly.as_str()
    }

    pub fn chr(&self) -> (r: &str)
        ensures
            r@ == self.chr@,
    {
        self.chr.as_str()
    }

    pub fn position(&self) -> (r: u64)
        ensures
            r == self.position,
    {
        self.position
    }

    pub fn ref_allele(&self) -> (r: &str)
        ensures
            r@ == self.ref_allele@,
    {
        self.ref_allele.as_str()
    }

    pub fn alt_allele(&self) -> (r: &str)
        ensures
            r@ == self.alt_allele@,
    {
        self.alt_allele.as_str()
    }

    pub fn hgnc_id(&self) -> (r: &str)
        ensures
            r@ == self.hgnc_id@,
    {
        self.hgnc_id.as_str()
    }

    pub fn gene_symbol(&self) -> (r: &str)
        ensures
            r@ == self.gene_symbol@,
    {
        self.gene_symbol.as_str()
    }

    pub fn transcript(&self) -> (r: &str)
        ensures
            r@ == self.transcript@,
    {
        self.transcript.as_str()
    }

    pub fn allele(&self) -> (r: &str)
        ensures
            r@ == self.allele@,
    {
        self.allele.as_str()
    }

    pub fn g_hgvs(&self) -> (r: &str)
        ensures
            r@ == self.g_hgvs@,
    {
        self.g_hgvs.as_str()
    }

    pub fn p_hgvs(&self) -> (r: Option<String>)
        ensures
            r == self.p_hgvs,
    {
        match &self.p_hgvs {
            Some(p) => Some(p.clone()),
            None => None,
        }
    }

    /// Whether the chromosome name holds an `X`.
    pub fn is_x_chromosomal(&self) -> (r: bool)
        ensures
            r == self.chr@.contains('X'),
    {
        contains_char(self.chr.as_str(), 'X')
    }

    /// Checks that `gene` (a symbol or an HGNC identifier) is the variant's gene.
    pub fn validate_against_gene(&self, gene: &str) -> (r: Result<(), HGVSError>)
        ensures
            r is Ok <==> gene_matches(gene@, self.gene_symbol@, self.hgnc_id@),
            r matches Err(e) ==> (e matches HGVSError::MismatchingGeneData {
                inputted_gene,
                hgvs,
                actual_gene,
                ..
            } && inputted_gene@ == gene@ && hgvs@ == self.g_hgvs@ && actual_gene@ == self.hgnc_id@),
    {
        let by_id = is_hgnc_id(gene);
        let expected = if by_id {
            self.hgnc_id.as_str()
        } else {
            self.gene_symbol.as_str()
        };
        if same_text(gene, expected) {
            Ok(())
        } else {
            Err(
                HGVSError::MismatchingGeneData {
                    id_type: owned(
                        if by_id {
                            "HGNC ID"
                        } else {
                            "gene symbol"
                        },
                    ),
                    inputted_gene: owned(gene),
                    hgvs: self.g_hgvs.clone(),
                    actual_gene: self.hgnc_id.clone(),
                },
            )
        }
    }

    /// The interpretation record of the variant carried on `allele_count` alleles.
    pub fn get_hgvs_variant_interpretation(&self, allele_count: usize) -> (r: VariantInterpretation)
        ensures
            r.allelic_state == simple_allele_term(allele_count, self.chr@.contains('X')),
            r.variation_id@ == self.g_hgvs@,
            r.gene_hgnc_id@ == self.hgnc_id@,
            r.gene_symbol@ == self.gene_symbol@,
            expression_views(r.expressions@) == validated_expressions(*self),
            r.genome_assembly@ == self.assembly@,
            r.chrom@ == self.chr@,
            r.pos == self.position,
            r.reference@ == self.ref_allele@,
            r.alternate@ == self.alt_allele@,
    {
        let c_value = self.transcript.clone().concat(":").concat(self.allele.as_str());
        let mut expressions: Vec<HgvsExpression> = Vec::new();
        expressions.push(HgvsExpression { syntax: owned("hgvs.c"), value: c_value });
        expressions.push(HgvsExpression { syntax: owned("hgvs.g"), value: self.g_hgvs.clone() });
        match &self.p_hgvs {
            Some(p) => expressions.push(HgvsExpression { syntax: owned("hgvs.p"), value: p.clone() }),
            None => {},
        }
        assert(expression_views(expressions@) =~= validated_expressions(*self));
        let allelic_state = if allele_count == 2 {
            AlleleTerm::Homozygous
        } else if self.is_x_chromosomal() {
            AlleleTerm::Hemizygous
        } else {
            AlleleTerm::Heterozygous
        };
        VariantInterpretation {
            variation_id: self.g_hgvs.clone(),
            gene_hgnc_id: self.hgnc_id.clone(),
            gene_symbol: self.gene_symbol.clone(),
            expressions,
            genome_assembly: self.assembly.clone(),
            chrom: self.chr.clone(),
            pos: self.position,
            reference: self.ref_allele.clone(),
            alternate: self.alt_allele.clone(),
            allelic_state,
        }
    }
}

} // verus!
