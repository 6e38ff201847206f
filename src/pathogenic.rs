//! The gene and variant configurations accepted as the cause of a disease.
use crate::error::PivotError;
use crate::text::{owned, same_text};
use vstd::prelude::*;

verus! {

/// A causative configuration: nothing, a gene alone, or one or two HGVS
/// variants (optionally with their gene). `gene` is a symbol or an HGNC
/// identifier; the variants are HGVS strings such as NM_001173464.1:c.2860C>T.
#[derive(Debug, Clone, Copy)]
pub enum PathogenicGeneVariantData<'a> {
    NoCause,
    CausativeGene(&'a str),
    HeterozygousVariant { gene: Option<&'a str>, hgvs: &'a str },
    HomozygousVariant { gene: Option<&'a str>, hgvs: &'a str },
    CompoundHeterozygousVariantPair { gene: Option<&'a str>, hgvs1: &'a str, hgvs2: &'a str },
}

impl<'a> PathogenicGeneVariantData<'a> {
    /// The configuration of `genes` and `hgvs_strings`: none of either is
    /// `NoCause`; one gene alone is `CausativeGene`; at most one gene with one
    /// variant is heterozygous; with two equal variants homozygous; with two
    /// different ones a compound-heterozygous pair. Any other numbers are invalid.
    pub fn from_genes_and_hgvs(genes: Vec<&'a str>, hgvs_strings: Vec<&'a str>) -> (r: Result<
        PathogenicGeneVariantData<'a>,
        PivotError,
    >)
        ensures
            r is Err <==> genes@.len() > 1 || hgvs_strings@.len() > 2,
            r matches Err(e) ==> e is InvalidGeneVariantConfiguration,
            r matches Ok(d) ==> {
                let gene = if genes@.len() == 1 {
                    Some(genes@[0])
                } else {
                    None::<&'a str>
                };
                &&& hgvs_strings@.len() == 0 && genes@.len() == 0 ==> d is NoCause
                &&& hgvs_strings@.len() == 0 && genes@.len() == 1 ==> d == PathogenicGeneVariantData::CausativeGene(genes@[0])
                &&& hgvs_strings@.len() == 1 ==> d == (PathogenicGeneVariantData::HeterozygousVariant { gene, hgvs: hgvs_strings@[0] })
                &&& hgvs_strings@.len() == 2 && hgvs_strings@[0]@ == hgvs_strings@[1]@ ==> d == (
                PathogenicGeneVariantData::HomozygousVariant { gene, hgvs: hgvs_strings@[0] })
                &&& hgvs_strings@.len() == 2 && hgvs_strings@[0]@ != hgvs_strings@[1]@ ==> d == (
                PathogenicGeneVariantData::CompoundHeterozygousVariantPair {
                    gene,
                    hgvs1: hgvs_strings@[0],
                    hgvs2: hgvs_strings@[1],
                })
            },
    {
        let n_genes = genes.len();
        let n_vars = hgvs_strings.len();
        if n_genes > 1 || n_vars > 2 {
            return Err(
                PivotError::InvalidGeneVariantConfiguration(
                    owned(
                        "Invalid quantity of genes and HGVS variants. Could not interpret as PathogenicGeneVariantData.",
                    ),
                ),
            );
        }
        let gene: Option<&'a str> = if n_genes == 1 {
            Some(genes[0])
        } else {
            None
        };
        if n_vars == 0 {
            if n_genes == 0 {
                Ok(PathogenicGeneVariantData::NoCause)
            } else {
                Ok(PathogenicGeneVariantData::CausativeGene(genes[0]))
            }
        } else if n_vars == 1 {
            Ok(PathogenicGeneVariantData::HeterozygousVariant { gene, hgvs: hgvs_strings[0] })
        } else if same_text(hgvs_strings[0], hgvs_strings[1]) {
            Ok(PathogenicGeneVariantData::HomozygousVariant { gene, hgvs: hgvs_strings[0] })
        } else {
            Ok(
                PathogenicGeneVariantData::CompoundHeterozygousVariantPair {
                    gene,
                    hgvs1: hgvs_strings[0],
                    hgvs2: hgvs_strings[1],
                },
            )
        }
    }

    /// How many alleles each variant of the configuration is carried on.
    pub fn get_allelic_count(&self) -> (r: usize)
        ensures
            r == match *self {
                PathogenicGeneVariantData::HeterozygousVariant { .. } => 1usize,
                PathogenicGeneVariantData::HomozygousVariant { .. } => 2usize,
                PathogenicGeneVariantData::CompoundHeterozygousVariantPair { .. } => 1usize,
                _ => 0usize,
            },
    {
        match self {
            PathogenicGeneVariantData::NoCause => 0,
            PathogenicGeneVariantData::CausativeGene(_) => 0,
            PathogenicGeneVariantData::HeterozygousVariant { .. } => 1,
            PathogenicGeneVariantData::HomozygousVariant { .. } => 2,
            PathogenicGeneVariantData::CompoundHeterozygousVariantPair { .. } => 1,
        }
    }

    /// The gene of the configuration, when it names one.
    pub fn get_gene(&self) -> (r: Option<&'a str>)
        ensures
            r == match *self {
                PathogenicGeneVariantData::NoCause => None,
                PathogenicGeneVariantData::CausativeGene(g) => Some(g),
                PathogenicGeneVariantData::HeterozygousVariant { gene, .. } => gene,
                PathogenicGeneVariantData::HomozygousVariant { gene, .. } => gene,
                PathogenicGeneVariantData::CompoundHeterozygousVariantPair { gene, .. } => gene,
            },
    {
        match self {
            PathogenicGeneVariantData::NoCause => None,
            PathogenicGeneVariantData::CausativeGene(gene) => Some(*gene),
            PathogenicGeneVariantData::HeterozygousVariant { gene, .. } => *gene,
            PathogenicGeneVariantData::HomozygousVariant { gene, .. } => *gene,
            PathogenicGeneVariantData::CompoundHeterozygousVariantPair { gene, .. } => *gene,
        }
    }

    /// The variants of the configuration, in order.
    pub fn get_vars(&self) -> (r: Vec<&'a str>)
        ensures
            r@ == match *self {
                PathogenicGeneVariantData::HeterozygousVariant { hgvs, .. } => seq![hgvs],
                PathogenicGeneVariantData::HomozygousVariant { hgvs, .. } => seq![hgvs],
                PathogenicGeneVariantData::CompoundHeterozygousVariantPair { hgvs1, hgvs2, .. } => seq![
                    hgvs1,
                    hgvs2,
                ],
                _ => Seq::<&'a str>::empty(),
            },
    {
        let r = match self {
            PathogenicGeneVariantData::NoCause | PathogenicGeneVariantData::CausativeGene(_) => vec![],
            PathogenicGeneVariantData::HomozygousVariant { hgvs, .. }
            | PathogenicGeneVariantData::HeterozygousVariant { hgvs, .. } => vec![*hgvs],
            PathogenicGeneVariantData::CompoundHeterozygousVariantPair { hgvs1, hgvs2, .. } => vec![
                *hgvs1,
                *hgvs2,
            ],
        };
        assert(r@ =~= match *self {
            PathogenicGeneVariantData::HeterozygousVariant { hgvs, .. } => seq![hgvs],
            PathogenicGeneVariantData::HomozygousVariant { hgvs, .. } => seq![hgvs],
            PathogenicGeneVariantData::CompoundHeterozygousVariantPair { hgvs1, hgvs2, .. } => seq![
                hgvs1,
                hgvs2,
            ],
            _ => Seq::<&'a str>::empty(),
        });
        r
    }
}

} // verus!
