//! Resolution of human gene identifiers and HGVS variant descriptions, with a
//! persistent per-type cache, a read-through client composition, a bounded
//! retry driver and the allelic-state (zygosity) classification.
pub mod acmg;
pub mod cache;
pub mod error;
pub mod gene;
pub mod hgnc;
pub mod hgvs_format;
pub mod numeric;
pub mod pathogenic;
pub mod read_through;
pub mod retry;
pub mod store;
pub mod text;
pub mod unvalidated;
pub mod validated_hgvs;
pub mod validation;
pub mod variant;
pub mod variant_manager;
pub mod vcf_var;
pub mod zygosity;
