use pivot::error::{HGVSError, PivotError};
use pivot::retry::{RetryPolicy, RetryState, RetryStep};
use pivot::unvalidated::UnvalidatedHgvs;
use pivot::validated_hgvs::ValidatedHgvs;
use pivot::validation::{
    get_variant_info_for_valid_hgvs, validate_from_response, GenomeAssembly, Metadata,
    PredictedProteinConsequence, PrimaryAssemblyLoci, SingleVariantInfo, SingleVariantResponse,
    VariantValidatorResponse, VcfCoordinates,
};
use pivot::variant_manager::{HgvsVariantValidator, VariantManager};
use pivot::zygosity::AlleleTerm;

fn loci(chr: &str, pos: &str, g: &str) -> PrimaryAssemblyLoci {
    PrimaryAssemblyLoci {
        hgvs_genomic_description: g.to_string(),
        vcf: VcfCoordinates {
            alt: "A".to_string(),
            chr: chr.to_string(),
            pos: pos.to_string(),
            reference: "G".to_string(),
        },
    }
}

fn metadata() -> Metadata {
    Metadata {
        variantvalidator_hgvs_version: "2.2".to_string(),
        variantvalidator_version: "3.0".to_string(),
        vvdb_version: "vvdb".to_string(),
        vvseqrepo_db: "seqrepo".to_string(),
        vvta_version: "vvta".to_string(),
    }
}

fn kif21a_info(pos38: &str) -> SingleVariantInfo {
    SingleVariantInfo {
        gene_symbol: "KIF21A".to_string(),
        hgnc_id: "HGNC:19349".to_string(),
        hgvs_transcript_variant: "NM_001173464.1:c.2860C>T".to_string(),
        hgvs_predicted_protein_consequence: PredictedProteinConsequence {
            lrg_slr: String::new(),
            lrg_tlr: String::new(),
            slr: "NP_001166935.1:p.(R954W)".to_string(),
            tlr: "NP_001166935.1:p.(Arg954Trp)".to_string(),
        },
        primary_assembly_loci: vec![
            ("grch37".to_string(), loci("12", "39726207", "NC_000012.11:g.39726207G>A")),
            ("hg19".to_string(), loci("chr12", "39726207", "NC_000012.11:g.39726207G>A")),
            ("hg38".to_string(), loci("chr12", pos38, "NC_000012.12:g.39332405G>A")),
        ],
        validation_warnings: vec![],
    }
}

fn response(flag: &str, key: &str, info: SingleVariantInfo) -> VariantValidatorResponse {
    VariantValidatorResponse {
        variant_info: vec![(key.to_string(), info)],
        flag: flag.to_string(),
        metadata: metadata(),
    }
}

#[test]
fn validation_keeps_the_query_as_primary_key() {
    let q = "NM_001173464.1:c.2860C>T";
    let v = validate_from_response(q, GenomeAssembly::Hg38, response("gene_variant", q, kif21a_info("39332405")))
        .unwrap();
    assert_eq!(v.transcript_hgvs(), q);
    assert_eq!(v.transcript(), "NM_001173464.1");
    assert_eq!(v.allele(), "c.2860C>T");
    assert_eq!(v.chr(), "chr12");
    assert_eq!(v.position(), 39332405);
    assert_eq!(v.gene_symbol(), "KIF21A");
    assert_eq!(v.assembly(), "hg38");
    assert_eq!(v.p_hgvs(), Some("NP_001166935.1:p.(Arg954Trp)".to_string()));
}

#[test]
fn validation_errors_by_kind() {
    let q = "NM_001173464.1:c.2860C>T";
    assert!(matches!(
        validate_from_response("NC_000012.12:g.39332405G>A", GenomeAssembly::Hg38, response("gene_variant", q, kif21a_info("1"))),
        Err(HGVSError::HgvsFormatNotAccepted { .. })
    ));
    match validate_from_response(q, GenomeAssembly::Hg38, response("intergenic", q, kif21a_info("1"))) {
        Err(HGVSError::NonGeneVariant { flag, .. }) => assert_eq!(flag, "intergenic"),
        _ => panic!("expected a non-gene variant"),
    }
    assert!(matches!(
        validate_from_response(q, GenomeAssembly::Hg38, response("gene_variant", "other:c.1A>G", kif21a_info("1"))),
        Err(HGVSError::VariantValidatorResponseUnexpectedFormat { .. })
    ));
    match validate_from_response(q, GenomeAssembly::Hg38, response("gene_variant", q, kif21a_info("12x"))) {
        Err(HGVSError::InvalidVariantValidatorResponseElement { element, .. }) => assert_eq!(element, "12x"),
        _ => panic!("expected an invalid element"),
    }
    let mut only37 = kif21a_info("1");
    only37.primary_assembly_loci.truncate(1);
    match validate_from_response(q, GenomeAssembly::Hg38, response("gene_variant", q, only37)) {
        Err(HGVSError::GenomeAssemblyNotFound { desired_assembly, found_assemblies, .. }) => {
            assert_eq!(desired_assembly, "hg38");
            assert_eq!(found_assemblies, vec!["grch37".to_string()]);
        }
        _ => panic!("expected a missing assembly"),
    }
}

#[test]
fn warning_flag_reports_the_warnings() {
    let mut w = kif21a_info("1");
    w.validation_warnings = vec!["reference mismatch".to_string()];
    let r = get_variant_info_for_valid_hgvs(
        "NM_001173464.1:c.2860G>T",
        response("warning", "validation_warning_1", w),
    );
    match r {
        Err(HGVSError::InvalidHgvs { hgvs, problems }) => {
            assert_eq!(hgvs, "NM_001173464.1:c.2860G>T");
            assert_eq!(problems, vec!["reference mismatch".to_string()]);
        }
        _ => panic!("expected warnings"),
    }
}

#[test]
fn abbreviate_single_response() {
    let q = "NM_001173464.1:c.2860C>T";
    let full = SingleVariantResponse::try_from_response(response("gene_variant", q, kif21a_info("39332405"))).unwrap();
    let v = full.abbreviate_response(GenomeAssembly::Hg19).unwrap();
    assert_eq!(v.position(), 39726207);
    assert_eq!(v.assembly(), "hg19");
    let two = VariantValidatorResponse {
        variant_info: vec![(q.to_string(), kif21a_info("1")), ("b".to_string(), kif21a_info("2"))],
        flag: "gene_variant".to_string(),
        metadata: metadata(),
    };
    assert!(matches!(
        SingleVariantResponse::try_from_response(two),
        Err(HGVSError::WrongNumberOfVariantInfos { expected: 1, found: 2 })
    ));
}

#[test]
fn retry_waits_grow_and_attempts_are_bounded() {
    let policy = RetryPolicy::new(3, 250, 250).unwrap();
    let mut state = RetryState::new();
    let mut waits = vec![];
    loop {
        assert!(state.may_attempt(&policy));
        match state.record::<u32, &str>(&policy, Err("down")) {
            RetryStep::Wait(ms) => waits.push(ms),
            RetryStep::Exhausted { error, attempts } => {
                assert_eq!(error, "down");
                assert_eq!(attempts, 3);
                break;
            }
            RetryStep::Succeeded(_) => panic!("no success was reported"),
        }
    }
    assert_eq!(waits, vec![250, 500]);
    assert!(!state.may_attempt(&policy));
    let mut fresh = RetryState::new();
    assert!(matches!(fresh.record::<u32, &str>(&policy, Ok(7)), RetryStep::Succeeded(7)));
    assert!(RetryPolicy::new(0, 1, 1).is_none());
    assert!(RetryPolicy::new(2, u64::MAX, 1).is_none());
    assert_eq!(policy.delay_after(2), 750);
}

#[test]
fn validator_and_manager() {
    let validator = HgvsVariantValidator::hg38();
    let u = UnvalidatedHgvs::new_from_strs("NM_001173464.1", "c.2860C>T");
    let url = validator.url_for(&u);
    assert!(url.contains("/hg38/NM_001173464.1%3Ac.2860C>T/"));
    let v = validator
        .validated_from_response(&u, response("gene_variant", "NM_001173464.1:c.2860C>T", kif21a_info("39332405")))
        .unwrap();
    assert_eq!(v.transcript(), "NM_001173464.1");
    assert_eq!(v.position(), 39332405);
    assert!(matches!(
        validator.validated_from_response(&u, response("warning", "x", kif21a_info("1"))),
        Err(PivotError::TemporaryError)
    ));

    let mut manager = VariantManager::new(vec![u.clone()]);
    assert!(manager.get_validated_hgvs(&u).is_none());
    assert!(!manager.is_validated(&u));
    assert!(!manager.validate_hgvs(&u, Err(PivotError::TemporaryError)));
    assert!(manager.validate_hgvs(&u, Ok(v)));
    assert!(manager.is_validated(&u));
    assert_eq!(manager.get_validated_hgvs(&u).unwrap().gene_symbol(), "KIF21A");
    assert!(manager.validate_hgvs(&u, Err(PivotError::TemporaryError)));
}

#[test]
fn validated_hgvs_interpretation() {
    let v = ValidatedHgvs::new(
        "hg38".to_string(),
        "chrX".to_string(),
        5,
        "G".to_string(),
        "A".to_string(),
        "HGNC:2928".to_string(),
        "DMD".to_string(),
        "NM_004006.3".to_string(),
        "c.1A>G".to_string(),
        "NC_000023.11:g.5G>A".to_string(),
        None,
    );
    let vi = v.get_hgvs_variant_interpretation(1);
    assert_eq!(vi.allelic_state, AlleleTerm::Hemizygous);
    assert_eq!(vi.expressions[0].value, "NM_004006.3:c.1A>G");
    assert_eq!(vi.expressions.len(), 2);
    assert_eq!(v.get_hgvs_variant_interpretation(2).allelic_state, AlleleTerm::Homozygous);
    assert!(v.validate_against_gene("DMD").is_ok());
    assert!(v.validate_against_gene("HGNC:1").is_err());
    assert_eq!(v.position(), 5);
    assert!(v.is_x_chromosomal());
}

#[test]
fn manager_policies_and_rounds() {
    let manager = VariantManager::new(vec![]);
    let mut state = RetryState::new();
    let mut waits = vec![];
    let mut last_error = None;
    for attempt in 1..=4u32 {
        match state.record::<u32, u32>(&manager.validation_retry_policy, Err(attempt)) {
            RetryStep::Wait(ms) => waits.push(ms),
            RetryStep::Exhausted { error, attempts } => {
                assert_eq!(attempts, 4);
                last_error = Some(error);
            }
            RetryStep::Succeeded(_) => panic!("no success was reported"),
        }
    }
    assert_eq!(waits, vec![500, 750, 1000]);
    assert_eq!(last_error, Some(4));
    assert_eq!(manager.round_policy.delay_after(0), 250);
    assert_eq!(manager.round_policy.delay_after(3), 1000);
    assert!(manager.another_round(0, 2, 0));
    assert!(!manager.another_round(2, 2, 0));
    assert!(!manager.another_round(0, 2, 4));
}
