use pivot::error::HGVSError;
use pivot::variant::HgvsVariant;
use pivot::zygosity::{get_allele_term, AlleleCount, AlleleTerm, ChromosomalSex};

const SEXES: [ChromosomalSex; 7] = [
    ChromosomalSex::X,
    ChromosomalSex::XX,
    ChromosomalSex::XXX,
    ChromosomalSex::XXY,
    ChromosomalSex::XYY,
    ChromosomalSex::XY,
    ChromosomalSex::Unknown,
];

/// The classification table written out case by case.
fn expected(sex: ChromosomalSex, count: AlleleCount, is_x: bool, is_y: bool) -> Option<AlleleTerm> {
    match (sex, count, is_x, is_y) {
        (_, AlleleCount::Double, false, false) => Some(AlleleTerm::Homozygous),
        (_, AlleleCount::Single, false, false) => Some(AlleleTerm::Heterozygous),
        (ChromosomalSex::XX | ChromosomalSex::XXY | ChromosomalSex::XXX | ChromosomalSex::Unknown, AlleleCount::Double, true, false) => Some(AlleleTerm::Homozygous),
        (ChromosomalSex::XX | ChromosomalSex::XXY | ChromosomalSex::XXX, AlleleCount::Single, true, false) => Some(AlleleTerm::Heterozygous),
        (ChromosomalSex::X | ChromosomalSex::XY | ChromosomalSex::XYY, AlleleCount::Single, true, false) => Some(AlleleTerm::Hemizygous),
        (ChromosomalSex::Unknown, AlleleCount::Single, true, false) => Some(AlleleTerm::UnspecifiedZygosity),
        (ChromosomalSex::XYY | ChromosomalSex::Unknown, AlleleCount::Double, false, true) => Some(AlleleTerm::Homozygous),
        (ChromosomalSex::XYY, AlleleCount::Single, false, true) => Some(AlleleTerm::Heterozygous),
        (ChromosomalSex::XY | ChromosomalSex::XXY, AlleleCount::Single, false, true) => Some(AlleleTerm::Hemizygous),
        (ChromosomalSex::Unknown, AlleleCount::Single, false, true) => Some(AlleleTerm::UnspecifiedZygosity),
        _ => None,
    }
}

#[test]
fn every_combination_is_classified_or_contradictory() {
    let mut valid = 0;
    for sex in SEXES {
        for count in [AlleleCount::Single, AlleleCount::Double] {
            for is_x in [false, true] {
                for is_y in [false, true] {
                    let got = get_allele_term(sex, count, is_x, is_y);
                    match expected(sex, count, is_x, is_y) {
                        Some(t) => {
                            assert_eq!(got.unwrap(), t);
                            valid += 1;
                        }
                        None => match got {
                            Err(HGVSError::ContradictoryAllelicData {
                                chromosomal_sex,
                                allele_count,
                                is_x: x,
                                is_y: y,
                            }) => {
                                assert_eq!(chromosomal_sex, sex);
                                assert_eq!(allele_count, count);
                                assert_eq!((x, y), (is_x, is_y));
                            }
                            _ => panic!("expected a contradiction"),
                        },
                    }
                }
            }
        }
    }
    assert_eq!(valid, 31);
}

#[test]
fn named_zygosity_cases() {
    assert_eq!(
        get_allele_term(ChromosomalSex::XX, AlleleCount::Double, false, false).unwrap(),
        AlleleTerm::Homozygous
    );
    assert_eq!(
        get_allele_term(ChromosomalSex::XY, AlleleCount::Single, true, false).unwrap(),
        AlleleTerm::Hemizygous
    );
    assert!(get_allele_term(ChromosomalSex::Unknown, AlleleCount::Single, true, true).is_err());
    assert!(get_allele_term(ChromosomalSex::XY, AlleleCount::Double, true, false).is_err());
    assert_eq!(
        get_allele_term(ChromosomalSex::Unknown, AlleleCount::Single, false, true).unwrap(),
        AlleleTerm::UnspecifiedZygosity
    );
}

#[test]
fn allele_terms_have_geno_ids_and_labels() {
    assert_eq!(AlleleTerm::Homozygous.id(), "GENO:0000136");
    assert_eq!(AlleleTerm::Heterozygous.id(), "GENO:0000135");
    assert_eq!(AlleleTerm::Hemizygous.id(), "GENO:0000134");
    assert_eq!(AlleleTerm::UnspecifiedZygosity.id(), "GENO:0000137");
    assert_eq!(AlleleTerm::UnspecifiedZygosity.label(), "unspecified zygosity");
    assert_eq!(AlleleTerm::Hemizygous.label(), "hemizygous");
}

#[test]
fn allele_count_from_number() {
    assert_eq!(AlleleCount::try_from_count(1).unwrap(), AlleleCount::Single);
    assert_eq!(AlleleCount::try_from_count(2).unwrap(), AlleleCount::Double);
    assert!(matches!(
        AlleleCount::try_from_count(3),
        Err(HGVSError::InvalidAlleleCount { found: 3 })
    ));
    assert!(matches!(
        AlleleCount::try_from_count(0),
        Err(HGVSError::InvalidAlleleCount { found: 0 })
    ));
}

fn validated_c_hgvs() -> HgvsVariant {
    HgvsVariant::new(
        "hg38",
        "chr12",
        38332495,
        "G",
        "A",
        "KIF21A",
        "HGNC:19349",
        "NM_001173464.1",
        "c.2860C>T",
        "NM_001173464.1:c.2860C>T",
        "NC_000012.12:g.39332405G>A",
        Some("NP_001166935.1:p.(Arg954Trp)"),
    )
}

fn validated_n_hgvs() -> HgvsVariant {
    HgvsVariant::new(
        "hg38",
        "chr11",
        1997235,
        "C",
        "A",
        "H19",
        "HGNC:4713",
        "NR_002196.1",
        "n.601G>T",
        "NR_002196.1:n.601G>T",
        "NC_000011.10:g.1997235C>A",
        None,
    )
}

#[test]
fn interpretation_of_coding_variant() {
    let vi = validated_c_hgvs()
        .create_variant_interpretation(AlleleCount::Single, ChromosomalSex::Unknown)
        .unwrap();
    assert_eq!(vi.allelic_state.label(), "heterozygous");
    assert_eq!(vi.expressions.len(), 3);
    assert_eq!(vi.expressions[0].syntax, "hgvs.c");
    assert_eq!(vi.expressions[0].value, "NM_001173464.1:c.2860C>T");
    assert_eq!(vi.expressions[1].syntax, "hgvs.g");
    assert_eq!(vi.expressions[2].syntax, "hgvs.p");
    assert_eq!(vi.pos, 38332495);
    assert_eq!(vi.variation_id, "NC_000012.12:g.39332405G>A");
}

#[test]
fn interpretation_of_noncoding_variant() {
    let vi = validated_n_hgvs()
        .create_variant_interpretation(AlleleCount::Double, ChromosomalSex::Unknown)
        .unwrap();
    assert_eq!(vi.allelic_state, AlleleTerm::Homozygous);
    assert_eq!(vi.expressions.len(), 2);
    assert_eq!(vi.expressions[0].syntax, "hgvs.n");
    assert_eq!(vi.expressions[0].value, "NR_002196.1:n.601G>T");
}

#[test]
fn interpretation_of_contradictory_data_fails() {
    let x_variant = HgvsVariant::new(
        "hg38", "chrX", 100, "A", "G", "DMD", "HGNC:2928", "NM_004006.3", "c.1A>G",
        "NM_004006.3:c.1A>G", "NC_000023.11:g.100A>G", None,
    );
    assert!(x_variant.is_x_chromosomal());
    assert!(!x_variant.is_y_chromosomal());
    assert!(matches!(
        x_variant.create_variant_interpretation(AlleleCount::Double, ChromosomalSex::XY),
        Err(HGVSError::ContradictoryAllelicData { .. })
    ));
    let vi = x_variant
        .create_variant_interpretation(AlleleCount::Single, ChromosomalSex::XY)
        .unwrap();
    assert_eq!(vi.allelic_state, AlleleTerm::Hemizygous);
}

#[test]
fn test_validate_against_gene() {
    validated_c_hgvs().validate_against_gene("KIF21A").unwrap();
    validated_c_hgvs().validate_against_gene("HGNC:19349").unwrap();
}

#[test]
fn test_validate_against_gene_err() {
    assert!(validated_c_hgvs().validate_against_gene("CLOCK").is_err());
    match validated_c_hgvs().validate_against_gene("HGNC:1234") {
        Err(HGVSError::MismatchingGeneData { id_type, inputted_gene, hgvs, actual_gene }) => {
            assert_eq!(id_type, "HGNC ID");
            assert_eq!(inputted_gene, "HGNC:1234");
            assert_eq!(hgvs, "NM_001173464.1:c.2860C>T");
            assert_eq!(actual_gene, "HGNC:19349");
        }
        _ => panic!("expected a mismatch"),
    }
}

#[test]
fn variant_getters() {
    let v = validated_c_hgvs();
    assert_eq!(v.assembly(), "hg38");
    assert_eq!(v.chr(), "chr12");
    assert_eq!(v.position(), 38332495);
    assert_eq!(v.ref_allele(), "G");
    assert_eq!(v.alt_allele(), "A");
    assert_eq!(v.gene_symbol(), "KIF21A");
    assert_eq!(v.hgnc_id(), "HGNC:19349");
    assert_eq!(v.transcript(), "NM_001173464.1");
    assert_eq!(v.allele(), "c.2860C>T");
    assert_eq!(v.transcript_hgvs(), "NM_001173464.1:c.2860C>T");
    assert_eq!(v.g_hgvs(), "NC_000012.12:g.39332405G>A");
    assert_eq!(v.p_hgvs(), Some("NP_001166935.1:p.(Arg954Trp)".to_string()));
    let w = HgvsVariant::new_from_strs(
        "hg38", "chr12", 1, "G", "A", "HGNC:19349", "KIF21A", "NM_1.1", "c.1G>A", "NM_1.1:c.1G>A",
        "g", None,
    );
    assert_eq!(w.gene_symbol(), "KIF21A");
    assert_eq!(w.hgnc_id(), "HGNC:19349");
    assert_eq!(w.p_hgvs(), None);
}
