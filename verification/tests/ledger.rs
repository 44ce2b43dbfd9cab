use registry_log::ledger::{
    ledger_source, pack_ledger_records, Config, LeafDigests, LedgerSource, LedgerSourceContentType,
};
use registry_log::names::FetchNamesError;

#[test]
fn config_keeps_its_service() {
    let config = Config::new(17u8);
    assert_eq!(*config.core_service(), 17);
    let config = Config::new("service".to_string());
    assert_eq!(config.core_service(), "service");
}

#[test]
fn ledger_source_covers_every_leaf() {
    let expected = LedgerSource {
        first_registry_index: 0,
        last_registry_index: 41,
        url: "v1/ledger/records".to_string(),
        accept_ranges: false,
        content_type: LedgerSourceContentType::Packed,
    };
    assert_eq!(ledger_source(42), expected);
    assert_eq!(ledger_source(1).last_registry_index, 0);
    assert_eq!(ledger_source(u32::MAX).last_registry_index, u32::MAX - 1);
}

#[test]
fn packed_records_hold_both_digests_of_every_leaf() {
    assert_eq!(pack_ledger_records(&vec![]), Vec::<u8>::new());
    let leaves = vec![
        LeafDigests { log_id: vec![1, 2], record_id: vec![3, 4] },
        LeafDigests { log_id: vec![5, 6], record_id: vec![7, 8] },
        LeafDigests { log_id: vec![], record_id: vec![9] },
    ];
    assert_eq!(pack_ledger_records(&leaves), vec![1, 2, 3, 4, 5, 6, 7, 8, 9]);
    let leaves: Vec<LeafDigests> =
        (0..10u8).map(|n| LeafDigests { log_id: vec![n; 32], record_id: vec![n + 100; 32] }).collect();
    let body = pack_ledger_records(&leaves);
    assert_eq!(body.len(), 10 * 64);
    assert_eq!(&body[64 * 3..64 * 3 + 32], &[3u8; 32]);
    assert_eq!(&body[64 * 3 + 32..64 * 4], &[103u8; 32]);
}

#[test]
fn fetch_names_error_status() {
    assert_eq!(FetchNamesError::LogNotFound("sha256:00".to_string()).status(), 404);
    let error = FetchNamesError::Message { status: 503, message: "later".to_string() };
    assert_eq!(error.status(), 503);
    let error = FetchNamesError::Message { status: 0, message: String::new() };
    assert_eq!(error.status(), 0);
}
