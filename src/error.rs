//! The error taxonomy of the library, one enum per subsystem.
use crate::zygosity::{AlleleCount, ChromosomalSex};
use vstd::prelude::*;

verus! {

/// Failure of the persistent cache engine.
#[derive(Debug)]
pub enum CacherError {
    /// The backing file could not be created or opened, or the table could not be created.
    StoreInit(redb::Error),
    /// A write transaction could not be opened, filled or committed.
    StoreWrite(redb::Error),
}

/// Failure while resolving or interpreting an HGVS variant description.
#[derive(Debug)]
#[allow(inconsistent_fields)]
pub enum HGVSError {
    InvalidHgvs { hgvs: String, problems: Vec<String> },
    HgvsFormatNotAccepted { hgvs: String, problem: String },
    NonGeneVariant { hgvs: String, flag: String },
    GenomeAssemblyNotFound { hgvs: String, desired_assembly: String, found_assemblies: Vec<String> },
    MismatchingGeneData { id_type: String, inputted_gene: String, hgvs: String, actual_gene: String },
    InvalidVariantValidatorResponseElement { hgvs: String, element: String, problem: String },
    ContradictoryAllelicData {
        chromosomal_sex: ChromosomalSex,
        allele_count: AlleleCount,
        is_x: bool,
        is_y: bool,
    },
    InvalidAlleleCount { found: u8 },
    DeserializeVariantValidatorResponseToSchema { hgvs: String, err: String },
    VariantValidatorAPI { hgvs: String, attempts: usize },
    VariantValidatorResponseUnexpectedFormat { hgvs: String, format_issue: String },
    WrongNumberOfVariantInfos { expected: usize, found: usize },
    FetchRequest { hgvs: String, err: String },
    CacherError(CacherError),
}

/// Failure while resolving a gene identifier.
#[derive(Debug)]
pub enum HGNCError {
    UnexpectedNumberOfDocuments { identifier: String, n_found: usize, n_expected: usize },
    MissingElementInDocument { desired_element: String },
    CannotEstablishCacheDir(String),
    CacherError(CacherError),
    Request(String),
}

/// Failure while assembling gene and variant data for an interpretation.
#[derive(Debug)]
pub enum PivotError {
    IncorrectHGVSFormat { hgvs: String, problem: String },
    InvalidGeneVariantConfiguration(String),
    NonAsciiCharacter(String),
    TemporaryError,
}

} // verus!
