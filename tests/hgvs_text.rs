use pivot::error::{HGVSError, PivotError};
use pivot::hgvs_format::{get_transcript_and_allele, is_c_hgvs, is_hgnc_id, is_m_hgvs, is_n_hgvs};
use pivot::numeric::parse_u32;
use pivot::pathogenic::PathogenicGeneVariantData;
use pivot::unvalidated::UnvalidatedHgvs;
use pivot::validation::{check_hgvs_format, get_fetch_url, get_variant_validator_url, GenomeAssembly};

#[test]
fn test_get_transcript_and_allele() {
    let (transcript, allele) = get_transcript_and_allele("NM_001173464.1:c.2860C>T").unwrap();
    assert_eq!(transcript, "NM_001173464.1");
    assert_eq!(allele, "c.2860C>T");
}

#[test]
fn test_get_transcript_and_allele_no_colon_err() {
    assert!(get_transcript_and_allele("NM_001173464.1*c.2860C>T").is_err());
}

#[test]
fn test_get_transcript_and_allele_multiple_colons_err() {
    match get_transcript_and_allele("NM_001173464.1:c:2860C>T") {
        Err(HGVSError::HgvsFormatNotAccepted { hgvs, .. }) => {
            assert_eq!(hgvs, "NM_001173464.1:c:2860C>T")
        }
        _ => panic!("expected a format error"),
    }
}

#[test]
fn allele_notation_prefixes() {
    assert!(is_c_hgvs("c.2860C>T"));
    assert!(!is_c_hgvs("n.601G>T"));
    assert!(is_n_hgvs("n.601G>T"));
    assert!(is_m_hgvs("m.3243A>G"));
    assert!(!is_m_hgvs("c"));
}

#[test]
fn hgnc_identifiers() {
    assert!(is_hgnc_id("HGNC:2082"));
    assert!(is_hgnc_id("HGNC"));
    assert!(!is_hgnc_id("CLOCK"));
    assert!(!is_hgnc_id("HGNCX:1"));
}

#[test]
fn format_rejection_before_any_request() {
    assert!(matches!(
        check_hgvs_format("NM_001173464.1c.2860C>T"),
        Err(HGVSError::HgvsFormatNotAccepted { .. })
    ));
    assert!(matches!(
        check_hgvs_format("NM_001173464.1:c.2860:C>T"),
        Err(HGVSError::HgvsFormatNotAccepted { .. })
    ));
    assert!(matches!(
        check_hgvs_format("NC_000012.12:g.39332405G>A"),
        Err(HGVSError::HgvsFormatNotAccepted { .. })
    ));
    let (t, a) = check_hgvs_format("NR_002196.1:n.601G>T").unwrap();
    assert_eq!((t.as_str(), a.as_str()), ("NR_002196.1", "n.601G>T"));
}

#[test]
fn test_url() {
    let expected = "https://rest.variantvalidator.org/VariantValidator/variantvalidator/hg38/NM_000138.5%3Ac.8230C>T/NM_000138.5?content-type=application%2Fjson";
    let unvalidated = UnvalidatedHgvs::new_from_strs("NM_000138.5", "c.8230C>T");
    let my_url = get_variant_validator_url(
        "hg38",
        unvalidated.get_transcript(),
        unvalidated.get_allele(),
    );
    assert_eq!(expected, my_url);
}

#[test]
fn fetch_url_below_api_root() {
    let url = get_fetch_url("https://api.example/vv", GenomeAssembly::Hg19, "NM_1.2", "c.3A>G");
    assert_eq!(url, "https://api.example/vv/hg19/NM_1.2%3Ac.3A>G/NM_1.2?content-type=application%2Fjson");
}

#[test]
fn variant_key_normalization() {
    assert_eq!(
        UnvalidatedHgvs::generate_variant_key("NM_000138.5", "c.8230C>T"),
        "NM_000138v5_c8230CtoT"
    );
    assert_eq!(
        UnvalidatedHgvs::generate_variant_key("NM_015120.4", "c.11031_11032delGA"),
        "NM_015120v4_c11031_11032delGA"
    );
    assert_eq!(UnvalidatedHgvs::generate_variant_key("NR_1.1", "n.5+1G>A"), "NR_1v1_n_5_1GtoA");
}

#[test]
fn unvalidated_from_string() {
    let u = UnvalidatedHgvs::from_hgvs_string("NM_000138.5:c.8230C>T").unwrap();
    assert_eq!(u.get_transcript(), "NM_000138.5");
    assert_eq!(u.get_allele(), "c.8230C>T");
    assert_eq!(u.get_variant_key(), "NM_000138v5_c8230CtoT");
    assert_eq!(u.to_hgvs_string(), "NM_000138.5:c.8230C>T");
    assert!(u.is_ascii());
    assert!(matches!(
        UnvalidatedHgvs::from_hgvs_string("no colon"),
        Err(PivotError::IncorrectHGVSFormat { .. })
    ));
    let odd = UnvalidatedHgvs::new("NM_1.1".to_string(), "c.1A>Ä".to_string(), "k".to_string());
    assert!(!odd.is_ascii());
}

#[test]
fn decimal_parsing() {
    assert_eq!(parse_u32("39726207"), Some(39726207));
    assert_eq!(parse_u32("+7"), Some(7));
    assert_eq!(parse_u32("4294967295"), Some(u32::MAX));
    assert_eq!(parse_u32("4294967296"), None);
    assert_eq!(parse_u32(""), None);
    assert_eq!(parse_u32("+"), None);
    assert_eq!(parse_u32("-1"), None);
    assert_eq!(parse_u32("12a"), None);
    assert_eq!(parse_u32("12a").is_none(), "12a".parse::<u32>().is_err());
}

#[test]
fn test_from_genes_and_variants() {
    assert!(matches!(
        PathogenicGeneVariantData::from_genes_and_hgvs(vec![], vec![]).unwrap(),
        PathogenicGeneVariantData::NoCause
    ));
    assert!(matches!(
        PathogenicGeneVariantData::from_genes_and_hgvs(vec!["KIF21A"], vec![]).unwrap(),
        PathogenicGeneVariantData::CausativeGene(_)
    ));
    assert!(matches!(
        PathogenicGeneVariantData::from_genes_and_hgvs(vec![], vec!["NM_001173464.1:c.2860C>T"])
            .unwrap(),
        PathogenicGeneVariantData::HeterozygousVariant { .. }
    ));
    assert!(matches!(
        PathogenicGeneVariantData::from_genes_and_hgvs(
            vec!["KIF21A"],
            vec!["NM_001173464.1:c.2860C>T"]
        )
        .unwrap(),
        PathogenicGeneVariantData::HeterozygousVariant { .. }
    ));
    let homo = PathogenicGeneVariantData::from_genes_and_hgvs(
        vec!["KIF21A"],
        vec!["NM_001173464.1:c.2860C>T", "NM_001173464.1:c.2860C>T"],
    )
    .unwrap();
    assert!(matches!(homo, PathogenicGeneVariantData::HomozygousVariant { .. }));
    assert_eq!(homo.get_allelic_count(), 2);
    assert_eq!(homo.get_gene(), Some("KIF21A"));
    assert_eq!(homo.get_vars(), vec!["NM_001173464.1:c.2860C>T"]);
    let pair = PathogenicGeneVariantData::from_genes_and_hgvs(
        vec![],
        vec!["NM_001173464.1:c.2860C>T", "NM_015120.4:c.11031_11032delGA"],
    )
    .unwrap();
    assert!(matches!(pair, PathogenicGeneVariantData::CompoundHeterozygousVariantPair { .. }));
    assert_eq!(pair.get_allelic_count(), 1);
    assert_eq!(pair.get_gene(), None);
    assert_eq!(pair.get_vars().len(), 2);
}

#[test]
fn test_from_genes_and_variants_invalid_configuration() {
    assert!(PathogenicGeneVariantData::from_genes_and_hgvs(
        vec!["KIF21A", "CLOCK"],
        vec!["NM_001173464.1:c.2860C>T"]
    )
    .is_err());
    assert!(matches!(
        PathogenicGeneVariantData::from_genes_and_hgvs(
            vec!["KIF21A"],
            vec![
                "NM_001173464.1:c.2860C>T",
                "NM_001173464.1:c.2860C>T",
                "NM_001173464.1:c.2860C>T"
            ]
        ),
        Err(PivotError::InvalidGeneVariantConfiguration(_))
    ));
}
