//! ACMG pathogenicity categories.
use crate::text::same_text;
use vstd::prelude::*;

verus! {

#[derive(Debug, Clone, Copy, PartialEq, Eq, Structural)]
pub enum AcmgPathogenicityClassification {
    NotProvided,
    Benign,
    LikelyBenign,
    UncertainSignificance,
    LikelyPathogenic,
    Pathogenic,
}

/// The lower-case form of a text, as Unicode case mapping gives it.
pub uninterp spec fn lower_of(s: Seq<char>) -> Seq<char>;

/// Relies on str::to_lowercase: the result depends on the characters alone.
#[verifier::external_body]
fn lowercase(s: &str) -> (r: String)
    ensures
        r@ == lower_of(s@),
{
    s.to_lowercase()
}

/// The category that a lower-case name denotes; any unknown name is `NotProvided`.
pub open spec fn category_of(lowered: Seq<char>) -> AcmgPathogenicityClassification {
    if lowered == "benign"@ {
        AcmgPathogenicityClassification::Benign
    } else if lowered == "likely benign"@ || lowered == "likely_benign"@ {
        AcmgPathogenicityClassification::LikelyBenign
    } else if lowered == "uncertain significance"@ || lowered == "uncertain_significance"@ {
        AcmgPathogenicityClassification::UncertainSignificance
    } else if lowered == "likely pathogenic"@ || lowered == "likely_pathogenic"@ {
        AcmgPathogenicityClassification::LikelyPathogenic
    } else if lowered == "pathogenic"@ {
        AcmgPathogenicityClassification::Pathogenic
    } else {
        AcmgPathogenicityClassification::NotProvided
    }
}

pub open spec fn category_name(c: AcmgPathogenicityClassification) -> Seq<char> {
    match c {
        AcmgPathogenicityClassification::NotProvided => "not_provided"@,
        AcmgPathogenicityClassification::Benign => "benign"@,
        AcmgPathogenicityClassification::LikelyBenign => "likely_benign"@,
        AcmgPathogenicityClassification::UncertainSignificance => "uncertain_significance"@,
        AcmgPathogenicityClassification::LikelyPathogenic => "likely_pathogenic"@,
        AcmgPathogenicityClassification::Pathogenic => "pathogenic"@,
    }
}

impl AcmgPathogenicityClassification {
    /// The category named by an already lower-cased name.
    pub fn from_lowercase(lowered: &str) -> (r: Self)
        ensures
            r == category_of(lowered@),
    {
        if same_text(lowered, "benign") {
            Self::Benign
        } else if same_text(lowered, "likely benign") || same_text(lowered, "likely_benign") {
            Self::LikelyBenign
        } else if same_text(lowered, "uncertain significance") || same_text(
            lowered,
            "uncertain_significance",
        ) {
            Self::UncertainSignificance
        } else if same_text(lowered, "likely pathogenic") || same_text(lowered, "likely_pathogenic") {
            Self::LikelyPathogenic
        } else if same_text(lowered, "pathogenic") {
            Self::Pathogenic
        } else {
            Self::NotProvided
        }
    }

    /// The category named by `acmg`, in any letter case.
    pub fn from_str(acmg: &str) -> (r: Self)
        ensures
            r == category_of(lower_of(acmg@)),
    {
        let lowered = lowercase(acmg);
        Self::from_lowercase(lowered.as_str())
    }

    /// The snake-case name of the category.
    pub fn as_str(&self) -> (r: &'static str)
        ensures
            r@ == category_name(*self),
    {
        match self {
            Self::NotProvided => "not_provided",
            Self::Benign => "benign",
            Self::LikelyBenign => "likely_benign",
            Self::UncertainSignificance => "uncertain_significance",
            Self::LikelyPathogenic => "likely_pathogenic",
            Self::Pathogenic => "pathogenic",
        }
    }
}

} // verus!
