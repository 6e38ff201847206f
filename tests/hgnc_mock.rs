use pivot::error::HGNCError;
use pivot::gene::{GeneDoc, GeneQuery, GeneResponse, Response, ResponseHeader};
use pivot::hgnc::{HGNCData, MockHGNCClient};

fn setup_mock() -> MockHGNCClient {
    let docs = vec![
        (
            "BRCA1".to_string(),
            GeneDoc::default().with_hgnc_id("HGNC:1100").with_symbol("BRCA1"),
        ),
        (
            "HGNC:1100".to_string(),
            GeneDoc::default().with_hgnc_id("HGNC:1100").with_symbol("BRCA1"),
        ),
    ];
    MockHGNCClient::new(docs)
}

#[test]
fn test_request_gene_data_success() {
    let mock = setup_mock();
    let query = GeneQuery::Symbol("BRCA1");

    let result = mock.request_gene_data(query);
    assert!(result.is_ok());

    let doc = result.unwrap();
    assert_eq!(doc.symbol, Some("BRCA1".to_string()));
}

#[test]
fn test_request_gene_data_not_found() {
    let mock = setup_mock();
    let query = GeneQuery::Symbol("UNKNOWN_GENE");

    let result = mock.request_gene_data(query);
    assert!(result.is_err());

    if let Err(HGNCError::UnexpectedNumberOfDocuments {
        identifier,
        n_found,
        ..
    }) = result
    {
        assert_eq!(identifier, "UNKNOWN_GENE");
        assert_eq!(n_found, 0);
    } else {
        panic!("Returned wrong error type");
    }
}

#[test]
fn test_request_hgnc_id_success() {
    let mock = setup_mock();
    let result = mock.request_hgnc_id("BRCA1");
    assert!(result.is_ok());
    assert_eq!(result.unwrap(), "HGNC:1100");
}

#[test]
fn test_request_gene_symbol_success() {
    let mock = setup_mock();
    let result = mock.request_gene_symbol("HGNC:1100").unwrap();
    assert_eq!(result, "BRCA1");
}

#[test]
fn test_request_pair_success() {
    let mock = setup_mock();
    let query = GeneQuery::Symbol("BRCA1");

    let result = mock.request_gene_identifier_pair(query);
    assert!(result.is_ok());

    let (symbol, id) = result.unwrap();
    assert_eq!(symbol, "BRCA1");
    assert_eq!(id, "HGNC:1100");
}

#[test]
fn mock_default_serves_clock_by_symbol_and_id() {
    let mock = MockHGNCClient::default();
    let by_symbol = mock.request_gene_data(GeneQuery::Symbol("CLOCK")).unwrap();
    let by_id = mock.request_gene_data(GeneQuery::HgncId("HGNC:2082")).unwrap();
    assert_eq!(by_symbol.hgnc_id, Some("HGNC:2082".to_string()));
    assert_eq!(by_id.symbol, Some("CLOCK".to_string()));
}

#[test]
fn missing_identifier_in_record_is_reported() {
    let mock = MockHGNCClient::new(vec![(
        "NOID".to_string(),
        GeneDoc::new().with_symbol("NOID"),
    )]);
    let r = mock.request_hgnc_id("NOID");
    assert!(matches!(r, Err(HGNCError::MissingElementInDocument { .. })));
}

#[test]
fn gene_query_from_identifier_picks_kind() {
    assert!(matches!(GeneQuery::from_identifier("HGNC:2082"), GeneQuery::HgncId("HGNC:2082")));
    assert!(matches!(GeneQuery::from_identifier("CLOCK"), GeneQuery::Symbol("CLOCK")));
    assert_eq!(GeneQuery::Symbol("ZNF3").inner(), "ZNF3");
}

#[test]
fn single_doc_requires_exactly_one_record() {
    let make = |docs: Vec<GeneDoc>| GeneResponse {
        response_header: ResponseHeader { status: 0, q_time: 1 },
        response: Response { num_found: docs.len() as i32, start: 0, num_found_exact: true, docs },
    };
    let one = make(vec![GeneDoc::new().with_symbol("ZNF3").with_hgnc_id("HGNC:13089")]);
    let doc = one.single_doc("ZNF3").unwrap();
    assert_eq!(doc.hgnc_id(), Some("HGNC:13089"));
    let none = make(vec![]);
    match none.single_doc("XYZ") {
        Err(HGNCError::UnexpectedNumberOfDocuments { identifier, n_found, n_expected }) => {
            assert_eq!(identifier, "XYZ");
            assert_eq!(n_found, 0);
            assert_eq!(n_expected, 1);
        }
        _ => panic!("expected an error"),
    }
    let two = make(vec![GeneDoc::new(), GeneDoc::new()]);
    assert!(matches!(
        two.single_doc("A"),
        Err(HGNCError::UnexpectedNumberOfDocuments { n_found: 2, .. })
    ));
}

#[test]
fn gene_doc_change_setters() {
    let d = GeneDoc::new().change_symbol("SHH").change_hgnc_id("HGNC:10848");
    assert_eq!(d.symbol(), Some("SHH"));
    assert_eq!(d.hgnc_id(), Some("HGNC:10848"));
    assert_eq!(GeneDoc::new().symbol(), None);
}

#[test]
fn causative_gene_query_uses_the_hgnc_pattern() {
    assert!(matches!(GeneQuery::for_causative_gene("HGNC:19349"), GeneQuery::HgncId("HGNC:19349")));
    assert!(matches!(GeneQuery::for_causative_gene("HGNC:12_3"), GeneQuery::HgncId(_)));
    assert!(matches!(GeneQuery::for_causative_gene("HGNC:abc"), GeneQuery::Symbol("HGNC:abc")));
    assert!(matches!(GeneQuery::for_causative_gene("HGNC:"), GeneQuery::Symbol(_)));
    assert!(matches!(GeneQuery::for_causative_gene("KIF21A"), GeneQuery::Symbol("KIF21A")));
}
