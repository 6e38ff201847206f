//! Allelic-state (zygosity) classification from chromosomal sex, allele count
//! and whether the locus lies on the X or the Y chromosome.
use crate::error::HGVSError;
use vstd::prelude::*;

verus! {

/// Karyotypic (chromosomal) sex of the individual that carries a variant.
#[derive(Debug, Clone, Copy, PartialEq, Eq, Structural)]
pub enum ChromosomalSex {
    X,
    XX,
    XXX,
    XXY,
    XYY,
    XY,
    Unknown,
}

/// Number of alleles that carry the variant.
#[derive(Debug, Clone, Copy, PartialEq, Eq, Structural)]
pub enum AlleleCount {
    Single,
    Double,
}

/// The classified allelic state, as a GENO ontology term.
#[derive(Debug, Clone, Copy, PartialEq, Eq, Structural)]
pub enum AlleleTerm {
    Homozygous,
    Heterozygous,
    Hemizygous,
    UnspecifiedZygosity,
}

/// Copies of the X chromosome that `sex` carries; `None` when the sex is unknown.
pub open spec fn x_copies(sex: ChromosomalSex) -> Option<nat> {
    match sex {
        ChromosomalSex::X => Some(1),
        ChromosomalSex::XX => Some(2),
        ChromosomalSex::XXX => Some(3),
        ChromosomalSex::XXY => Some(2),
        ChromosomalSex::XYY => Some(1),
        ChromosomalSex::XY => Some(1),
        ChromosomalSex::Unknown => None,
    }
}

/// Copies of the Y chromosome that `sex` carries; `None` when the sex is unknown.
pub open spec fn y_copies(sex: ChromosomalSex) -> Option<nat> {
    match sex {
        ChromosomalSex::X => Some(0),
        ChromosomalSex::XX => Some(0),
        ChromosomalSex::XXX => Some(0),
        ChromosomalSex::XXY => Some(1),
        ChromosomalSex::XYY => Some(2),
        ChromosomalSex::XY => Some(1),
        ChromosomalSex::Unknown => None,
    }
}

/// The allelic state that the inputs determine, or `None` when they contradict
/// each other. A locus on an autosome is homozygous with two alleles and
/// heterozygous with one. A locus on a sex chromosome is judged by how many
/// copies of that chromosome the sex carries: with two or more it is treated
/// like an autosome; with exactly one a single allele is hemizygous; with none,
/// or with two variant alleles on a single copy, the data are contradictory.
/// When the sex is unknown two alleles are homozygous and one is of
/// unspecified zygosity. A locus cannot be both X- and Y-linked.
pub open spec fn allele_term_spec(
    sex: ChromosomalSex,
    count: AlleleCount,
    is_x: bool,
    is_y: bool,
) -> Option<AlleleTerm> {
    if is_x && is_y {
        None
    } else if !is_x && !is_y {
        Some(if count == AlleleCount::Double { AlleleTerm::Homozygous } else { AlleleTerm::Heterozygous })
    } else {
        let copies = if is_x { x_copies(sex) } else { y_copies(sex) };
        match copies {
            None => Some(
                if count == AlleleCount::Double {
                    AlleleTerm::Homozygous
                } else {
                    AlleleTerm::UnspecifiedZygosity
                },
            ),
            Some(c) => if c >= 2 {
                Some(
                    if count == AlleleCount::Double {
                        AlleleTerm::Homozygous
                    } else {
                        AlleleTerm::Heterozygous
                    },
                )
            } else if c == 1 && count == AlleleCount::Single {
                Some(AlleleTerm::Hemizygous)
            } else {
                None
            },
        }
    }
}

impl AlleleCount {
    /// The allele count for 1 or 2; any other number is rejected.
    pub fn try_from_count(allele_count: u8) -> (r: Result<AlleleCount, HGVSError>)
        ensures
            allele_count == 1 ==> r == Ok::<AlleleCount, HGVSError>(AlleleCount::Single),
            allele_count == 2 ==> r == Ok::<AlleleCount, HGVSError>(AlleleCount::Double),
            allele_count != 1 && allele_count != 2 ==> r == Err::<AlleleCount, HGVSError>(
                HGVSError::InvalidAlleleCount { found: allele_count },
            ),
    {
        if allele_count == 1 {
            Ok(AlleleCount::Single)
        } else if allele_count == 2 {
            Ok(AlleleCount::Double)
        } else {
            Err(HGVSError::InvalidAlleleCount { found: allele_count })
        }
    }
}

impl AlleleTerm {
    /// The GENO identifier of the term.
    pub fn id(&self) -> (r: &'static str)
        ensures
            *self == AlleleTerm::Homozygous ==> r@ == "GENO:0000136"@,
            *self == AlleleTerm::Heterozygous ==> r@ == "GENO:0000135"@,
            *self == AlleleTerm::Hemizygous ==> r@ == "GENO:0000134"@,
            *self == AlleleTerm::UnspecifiedZygosity ==> r@ == "GENO:0000137"@,
    {
        match self {
            AlleleTerm::Homozygous => "GENO:0000136",
            AlleleTerm::Heterozygous => "GENO:0000135",
            AlleleTerm::Hemizygous => "GENO:0000134",
            AlleleTerm::UnspecifiedZygosity => "GENO:0000137",
        }
    }

    /// The GENO label of the term.
    pub fn label(&self) -> (r: &'static str)
        ensures
            *self == AlleleTerm::Homozygous ==> r@ == "homozygous"@,
            *self == AlleleTerm::Heterozygous ==> r@ == "heterozygous"@,
            *self == AlleleTerm::Hemizygous ==> r@ == "hemizygous"@,
            *self == AlleleTerm::UnspecifiedZygosity ==> r@ == "unspecified zygosity"@,
    {
        match self {
            AlleleTerm::Homozygous => "homozygous",
            AlleleTerm::Heterozygous => "heterozygous",
            AlleleTerm::Hemizygous => "hemizygous",
            AlleleTerm::UnspecifiedZygosity => "unspecified zygosity",
        }
    }
}

} // verus!

verus! {

/// Classifies the allelic state of a variant, or reports the combination as
/// contradictory with the full input for diagnostics.
pub fn get_allele_term(
    chromosomal_sex: ChromosomalSex,
    allele_count: AlleleCount,
    is_x: bool,
    is_y: bool,
) -> (r: Result<AlleleTerm, HGVSError>)
    ensures
        match r {
            Ok(t) => allele_term_spec(chromosomal_sex, allele_count, is_x, is_y) == Some(t),
            Err(e) => allele_term_spec(chromosomal_sex, allele_count, is_x, is_y) is None
                && e == (HGVSError::ContradictoryAllelicData {
                chromosomal_sex,
                allele_count,
                is_x,
                is_y,
            }),
        },
{
    let double = match allele_count {
        AlleleCount::Double => true,
        AlleleCount::Single => false,
    };
    let contradiction = HGVSError::ContradictoryAllelicData {
        chromosomal_sex,
        allele_count,
        is_x,
        is_y,
    };
    match (chromosomal_sex, is_x, is_y) {
        (_, true, true) => Err(contradiction),
        (_, false, false) => Ok(if double { AlleleTerm::Homozygous } else { AlleleTerm::Heterozygous }),
        (ChromosomalSex::Unknown, _, _) => Ok(
            if double {
                AlleleTerm::Homozygous
            } else {
                AlleleTerm::UnspecifiedZygosity
            },
        ),
        (ChromosomalSex::XX, true, false)
        | (ChromosomalSex::XXY, true, false)
        | (ChromosomalSex::XXX, true, false)
        | (ChromosomalSex::XYY, false, true) => Ok(
            if double {
                AlleleTerm::Homozygous
            } else {
                AlleleTerm::Heterozygous
            },
        ),
        (ChromosomalSex::X, true, false)
        | (ChromosomalSex::XY, true, false)
        | (ChromosomalSex::XYY, true, false)
        | (ChromosomalSex::XY, false, true)
        | (ChromosomalSex::XXY, false, true) => if double {
            Err(contradiction)
        } else {
            Ok(AlleleTerm::Hemizygous)
        },
        _ => Err(contradiction),
    }
}

/// Every combination of inputs is classified either as exactly one of the four
/// allelic states or as contradictory; the contradictory ones are exactly those
/// with both sex-chromosome flags set, a sex-chromosome locus on a sex known to
/// carry no copy of it, or two variant alleles on a sex known to carry a single
/// copy.
pub proof fn lemma_allele_term_total(sex: ChromosomalSex, count: AlleleCount, is_x: bool, is_y: bool)
    ensures
        allele_term_spec(sex, count, is_x, is_y) is None <==> {
            ||| is_x && is_y
            ||| (is_x != is_y) && (if is_x { x_copies(sex) } else { y_copies(sex) }) == Some(0nat)
            ||| (is_x != is_y) && (if is_x { x_copies(sex) } else { y_copies(sex) }) == Some(1nat)
                && count == AlleleCount::Double
        },
        allele_term_spec(sex, count, is_x, is_y) matches Some(t) ==> {
            ||| t == AlleleTerm::Homozygous
            ||| t == AlleleTerm::Heterozygous
            ||| t == AlleleTerm::Hemizygous
            ||| t == AlleleTerm::UnspecifiedZygosity
        },
        // a double allele count is never hemizygous or of unspecified zygosity
        count == AlleleCount::Double ==> allele_term_spec(sex, count, is_x, is_y) is None
            || allele_term_spec(sex, count, is_x, is_y) == Some(AlleleTerm::Homozygous),
{
}

} // verus!
