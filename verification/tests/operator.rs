use registry_log::operator::{
    decode_operator_record, encode_operator_record, interpret_operator_record, operator_rejection,
    EncodedOperatorRecord, OperatorDecodeErrno, OperatorEncodeErrno, OperatorEntry,
    OperatorGrantFlat, OperatorInit, OperatorLog, OperatorPermission, OperatorRecordData,
    OperatorRevokeFlat, OperatorValidationError, UnauthorizedPermissionError,
};
use registry_log::record::{
    Envelope, FailureKind, RawEntry, RawFailure, RawHeader, RawPermission, RawRecord, Timestamp,
    UnexpectedHashAlgorithm,
};
use warg_crypto::signing::{generate_p256_pair, PrivateKey, PublicKey};

const OTHER: &str = "sha256:7d38b5cd25a2baf85ad3bb5b9311383e671a8a142eb302b324d4a5fba8748c69";

fn operator_record(
    prev: Option<String>,
    seconds: i64,
    entries: Vec<OperatorEntry>,
) -> OperatorRecordData {
    OperatorRecordData { prev, version: 0, timestamp: Timestamp { seconds, nanos: 0 }, entries }
}

fn operator_init(key: &PublicKey) -> OperatorEntry {
    OperatorEntry::OperatorInit(OperatorInit {
        hash_algorithm: "sha256".to_string(),
        key: key.to_string(),
    })
}

fn operator_grant(key: &PublicKey) -> OperatorEntry {
    OperatorEntry::OperatorGrantFlat(OperatorGrantFlat {
        key: key.to_string(),
        permissions: vec![OperatorPermission::Commit],
    })
}

fn operator_revoke(key: &PublicKey) -> OperatorEntry {
    OperatorEntry::OperatorRevokeFlat(OperatorRevokeFlat {
        key: key.fingerprint().to_string(),
        permissions: vec![OperatorPermission::Commit],
    })
}

fn operator_envelope(key: &PrivateKey, rec: OperatorRecordData) -> (Envelope, String) {
    let EncodedOperatorRecord { content_bytes, record_id } = encode_operator_record(rec).unwrap();
    let mut message = b"WARG-OPERATOR-RECORD-SIGNATURE-V0:".to_vec();
    message.extend_from_slice(&content_bytes);
    let signature = key.sign(&message).unwrap().to_string();
    let key_id = key.public_key().fingerprint().to_string();
    (Envelope { content_bytes, key_id, signature }, record_id)
}

fn operator_started(key: &PrivateKey) -> (OperatorLog, String) {
    let mut log = OperatorLog::new();
    let first = operator_record(None, 10, vec![operator_init(&key.public_key())]);
    let (first, id) = operator_envelope(key, first);
    assert_eq!(log.append_operator_record(first), Ok(id.clone()));
    (log, id)
}

fn operator_round_trip(rec: OperatorRecordData) {
    let encoded = encode_operator_record(rec.clone()).unwrap();
    assert_eq!(decode_operator_record(encoded.content_bytes), Ok(rec));
}

#[test]
fn operator_round_trip_of_init() {
    let (key, _) = generate_p256_pair();
    operator_round_trip(operator_record(None, 1, vec![operator_init(&key)]));
}

#[test]
fn operator_round_trip_of_grant_flat() {
    let (key, _) = generate_p256_pair();
    operator_round_trip(operator_record(Some(OTHER.to_string()), 2, vec![operator_grant(&key)]));
}

#[test]
fn operator_round_trip_of_revoke_flat() {
    let (key, _) = generate_p256_pair();
    operator_round_trip(operator_record(Some(OTHER.to_string()), 3, vec![operator_revoke(&key)]));
}

#[test]
fn operator_round_trip_of_every_entry_in_one_record() {
    let (a, _) = generate_p256_pair();
    let (b, _) = generate_p256_pair();
    let rec = OperatorRecordData {
        prev: None,
        version: 4,
        timestamp: Timestamp { seconds: 1_700_000_000, nanos: 5 },
        entries: vec![operator_init(&a), operator_grant(&b), operator_revoke(&b)],
    };
    operator_round_trip(rec);
}

#[test]
fn operator_record_id_is_the_digest_of_prefix_and_content() {
    let (key, _) = generate_p256_pair();
    let encoded = encode_operator_record(operator_record(None, 1, vec![operator_init(&key)]));
    let encoded = encoded.unwrap();
    let mut prefixed = b"WARG-OPERATOR-LOG-RECORD-V0:".to_vec();
    prefixed.extend_from_slice(&encoded.content_bytes);
    let expected = warg_crypto::hash::HashAlgorithm::Sha256.digest(&prefixed);
    assert_eq!(encoded.record_id, expected.to_string());
}

#[test]
fn operator_encoding_of_a_known_record() {
    let rec = OperatorRecordData {
        prev: None,
        version: 1,
        timestamp: Timestamp { seconds: 2, nanos: 3 },
        entries: vec![],
    };
    let encoded = encode_operator_record(rec).unwrap();
    assert_eq!(encoded.content_bytes, vec![16, 1, 26, 4, 8, 2, 16, 3]);
}

#[test]
fn operator_encoding_agrees_with_the_outside_encoder() {
    let (key, _) = generate_p256_pair();
    let rec = operator_record(Some(OTHER.to_string()), 12, vec![operator_grant(&key)]);
    let outside = warg_protocol::operator::OperatorRecord {
        prev: Some(OTHER.parse::<warg_crypto::hash::AnyHash>().unwrap().into()),
        version: 0,
        timestamp: std::time::UNIX_EPOCH + std::time::Duration::new(12, 0),
        entries: vec![warg_protocol::operator::OperatorEntry::GrantFlat {
            key: key.clone(),
            permissions: vec!["commit".parse().unwrap()],
        }],
    };
    assert_eq!(
        encode_operator_record(rec).unwrap().content_bytes,
        warg_crypto::Encode::encode(&outside)
    );
}

#[test]
fn operator_encode_rejects_a_malformed_previous_record() {
    let rec = operator_record(Some("sha256".to_string()), 1, vec![]);
    assert_eq!(encode_operator_record(rec), Err(OperatorEncodeErrno::PrevRecordIdInvalidFormat));
}

#[test]
fn operator_encode_rejects_an_unknown_hash_algorithm() {
    let entry = OperatorEntry::OperatorInit(OperatorInit {
        hash_algorithm: "SHA256".to_string(),
        key: "no key".to_string(),
    });
    assert_eq!(
        encode_operator_record(operator_record(None, 1, vec![entry])),
        Err(OperatorEncodeErrno::UnsupportedHashAlgorithm)
    );
}

#[test]
fn operator_encode_rejects_a_malformed_key() {
    let (key, _) = generate_p256_pair();
    let entry = OperatorEntry::OperatorGrantFlat(OperatorGrantFlat {
        key: "rsa:AAAA".to_string(),
        permissions: vec![],
    });
    assert_eq!(
        encode_operator_record(operator_record(None, 1, vec![operator_init(&key), entry])),
        Err(OperatorEncodeErrno::PublicKeyParseFailure)
    );
}

#[test]
fn operator_decode_rejects_bytes_that_are_no_record() {
    assert_eq!(decode_operator_record(vec![1, 2, 3]), Err(OperatorDecodeErrno::FailedToDecode));
}

#[test]
fn operator_decode_rejects_entries_of_other_kinds() {
    let outside = warg_protocol::operator::OperatorRecord {
        prev: None,
        version: 0,
        timestamp: std::time::UNIX_EPOCH + std::time::Duration::new(1, 0),
        entries: vec![warg_protocol::operator::OperatorEntry::DefineNamespace {
            namespace: "wasi".to_string(),
        }],
    };
    assert_eq!(
        decode_operator_record(warg_crypto::Encode::encode(&outside)),
        Err(OperatorDecodeErrno::UnknownOperatorEntry)
    );
}

#[test]
fn operator_decode_rejects_permissions_of_other_kinds() {
    let (key, _) = generate_p256_pair();
    let outside = warg_protocol::operator::OperatorRecord {
        prev: None,
        version: 0,
        timestamp: std::time::UNIX_EPOCH + std::time::Duration::new(1, 0),
        entries: vec![warg_protocol::operator::OperatorEntry::GrantFlat {
            key,
            permissions: vec!["commit".parse().unwrap(), "defineNamespace".parse().unwrap()],
        }],
    };
    assert_eq!(
        decode_operator_record(warg_crypto::Encode::encode(&outside)),
        Err(OperatorDecodeErrno::UnknownOperatorPermission)
    );
}

#[test]
fn operator_interpret_rejects_entries_of_package_logs() {
    let raw = RawRecord {
        header: RawHeader { prev: None, version: 0, time: Some(Timestamp { seconds: 1, nanos: 0 }) },
        entries: vec![RawEntry::Release { version: "1.0.0".to_string(), content: OTHER.to_string() }],
    };
    assert_eq!(interpret_operator_record(raw), Err(OperatorDecodeErrno::UnknownOperatorEntry));
    let raw = RawRecord {
        header: RawHeader { prev: None, version: 0, time: Some(Timestamp { seconds: 1, nanos: 0 }) },
        entries: vec![RawEntry::GrantFlat {
            key: "k".to_string(),
            permissions: vec![RawPermission::Release],
        }],
    };
    assert_eq!(interpret_operator_record(raw), Err(OperatorDecodeErrno::UnknownOperatorPermission));
}

#[test]
fn operator_interpret_shows_a_known_record() {
    let raw = RawRecord {
        header: RawHeader {
            prev: Some(OTHER.to_string()),
            version: 2,
            time: Some(Timestamp { seconds: 1, nanos: 7 }),
        },
        entries: vec![RawEntry::RevokeFlat {
            key_id: "k".to_string(),
            permissions: vec![RawPermission::Commit],
        }],
    };
    let expected = OperatorRecordData {
        prev: Some(OTHER.to_string()),
        version: 2,
        timestamp: Timestamp { seconds: 1, nanos: 7 },
        entries: vec![OperatorEntry::OperatorRevokeFlat(OperatorRevokeFlat {
            key: "k".to_string(),
            permissions: vec![OperatorPermission::Commit],
        })],
    };
    assert_eq!(interpret_operator_record(raw), Ok(expected));
    let raw = RawRecord {
        header: RawHeader { prev: None, version: 0, time: None },
        entries: vec![],
    };
    assert_eq!(interpret_operator_record(raw), Err(OperatorDecodeErrno::FailedToDecode));
}

#[test]
fn operator_scenario_a_init_then_second_init() {
    let (_, key_a) = generate_p256_pair();
    let mut log = OperatorLog::new();
    assert_eq!(log.head(), None);
    let first = operator_record(None, 10, vec![operator_init(&key_a.public_key())]);
    let (first, first_id) = operator_envelope(&key_a, first);
    assert_eq!(log.append_operator_record(first), Ok(first_id.clone()));
    assert_eq!(log.head(), Some(first_id.clone()));

    let second =
        operator_record(Some(first_id.clone()), 11, vec![operator_init(&key_a.public_key())]);
    let (second, _) = operator_envelope(&key_a, second);
    assert_eq!(
        log.append_operator_record(second),
        Err(OperatorValidationError::InitialEntryAfterBeginning)
    );
    assert_eq!(log.head(), Some(first_id));
}

#[test]
fn operator_grant_then_commit_then_revoke() {
    let (_, key_a) = generate_p256_pair();
    let (public_b, key_b) = generate_p256_pair();
    let (mut log, first_id) = operator_started(&key_a);

    let early = operator_record(Some(first_id.clone()), 11, vec![operator_grant(&public_b)]);
    let (early, _) = operator_envelope(&key_b, early);
    assert_eq!(
        log.append_operator_record(early),
        Err(OperatorValidationError::UnauthorizedAction(UnauthorizedPermissionError {
            key_id: public_b.fingerprint().to_string(),
            permission: OperatorPermission::Commit,
        }))
    );

    let second = operator_record(Some(first_id), 11, vec![operator_grant(&public_b)]);
    let (second, second_id) = operator_envelope(&key_a, second);
    assert_eq!(log.append_operator_record(second), Ok(second_id.clone()));

    let third = operator_record(Some(second_id), 12, vec![operator_revoke(&key_a.public_key())]);
    let (third, third_id) = operator_envelope(&key_b, third);
    assert_eq!(log.append_operator_record(third), Ok(third_id.clone()));

    let fourth = operator_record(Some(third_id.clone()), 13, vec![operator_revoke(&public_b)]);
    let (fourth, _) = operator_envelope(&key_a, fourth);
    assert_eq!(
        log.append_operator_record(fourth),
        Err(OperatorValidationError::UnauthorizedAction(UnauthorizedPermissionError {
            key_id: key_a.public_key().fingerprint().to_string(),
            permission: OperatorPermission::Commit,
        }))
    );
    assert_eq!(log.head(), Some(third_id));
}

#[test]
fn operator_revoke_a_permission_that_was_never_granted() {
    let (_, key_a) = generate_p256_pair();
    let (public_b, _) = generate_p256_pair();
    let (mut log, first_id) = operator_started(&key_a);
    let second = operator_record(Some(first_id.clone()), 11, vec![operator_revoke(&public_b)]);
    let (second, _) = operator_envelope(&key_a, second);
    assert_eq!(
        log.append_operator_record(second),
        Err(OperatorValidationError::PermissionNotFoundToRevoke(UnauthorizedPermissionError {
            key_id: public_b.fingerprint().to_string(),
            permission: OperatorPermission::Commit,
        }))
    );
    assert_eq!(log.head(), Some(first_id));
}

#[test]
fn operator_append_rejects_what_is_malformed() {
    let (_, key_a) = generate_p256_pair();
    let mut log = OperatorLog::new();
    let first = operator_record(None, 10, vec![operator_init(&key_a.public_key())]);
    let (good, _) = operator_envelope(&key_a, first);

    let mut bad = good.clone();
    bad.signature = "signature".to_string();
    bad.content_bytes = vec![9, 9, 9];
    assert_eq!(log.append_operator_record(bad), Err(OperatorValidationError::SignatureParseFailure));

    let mut bad = good.clone();
    bad.content_bytes = vec![9, 9, 9];
    assert_eq!(
        log.append_operator_record(bad),
        Err(OperatorValidationError::FailedToDecodeOperatorRecord)
    );
    assert_eq!(log.head(), None);
}

#[test]
fn operator_append_checks_chain_version_time_and_signature() {
    let (_, key_a) = generate_p256_pair();
    let (public_b, key_b) = generate_p256_pair();
    let mut log = OperatorLog::new();
    let (empty, _) = operator_envelope(&key_a, operator_record(None, 10, vec![]));
    assert_eq!(
        log.append_operator_record(empty),
        Err(OperatorValidationError::InitialRecordDoesNotInit)
    );
    let grant_first = operator_record(None, 10, vec![operator_revoke(&public_b)]);
    let (grant_first, _) = operator_envelope(&key_a, grant_first);
    assert!(log.append_operator_record(grant_first).is_err());
    let with_prev =
        operator_record(Some(OTHER.to_string()), 10, vec![operator_init(&key_a.public_key())]);
    let (with_prev, _) = operator_envelope(&key_a, with_prev);
    assert_eq!(
        log.append_operator_record(with_prev),
        Err(OperatorValidationError::PreviousHashOnFirstRecord)
    );

    let (mut log, first_id) = operator_started(&key_a);
    let (no_prev, _) = operator_envelope(&key_a, operator_record(None, 11, vec![]));
    assert_eq!(
        log.append_operator_record(no_prev),
        Err(OperatorValidationError::NoPreviousHashAfterInit)
    );
    let (wrong_prev, _) =
        operator_envelope(&key_a, operator_record(Some(OTHER.to_string()), 11, vec![]));
    assert_eq!(
        log.append_operator_record(wrong_prev),
        Err(OperatorValidationError::RecordHashDoesNotMatch)
    );
    let mut rec = operator_record(Some(first_id.clone()), 11, vec![]);
    rec.version = 3;
    let (wrong_version, _) = operator_envelope(&key_a, rec);
    assert_eq!(
        log.append_operator_record(wrong_version),
        Err(OperatorValidationError::ProtocolVersionNotAllowed(3))
    );
    let (too_early, _) =
        operator_envelope(&key_a, operator_record(Some(first_id.clone()), 9, vec![]));
    assert_eq!(
        log.append_operator_record(too_early),
        Err(OperatorValidationError::TimestampLowerThanPrevious)
    );
    let (unknown, _) =
        operator_envelope(&key_b, operator_record(Some(first_id.clone()), 11, vec![]));
    assert_eq!(
        log.append_operator_record(unknown.clone()),
        Err(OperatorValidationError::KeyIdNotRecognized(public_b.fingerprint().to_string()))
    );
    let mut forged = unknown;
    forged.key_id = key_a.public_key().fingerprint().to_string();
    assert_eq!(log.append_operator_record(forged), Err(OperatorValidationError::SignatureInvalid));
    assert_eq!(log.head(), Some(first_id.clone()));
    let (good, good_id) = operator_envelope(&key_a, operator_record(Some(first_id), 11, vec![]));
    assert_eq!(log.append_operator_record(good), Ok(good_id));
}

fn operator_failure(kind: FailureKind) -> RawFailure {
    RawFailure {
        kind,
        subject: "subject".to_string(),
        expected: "expected".to_string(),
        permission: RawPermission::Commit,
        protocol_version: 5,
    }
}

#[test]
fn operator_rejection_of_each_rule() {
    let named = UnauthorizedPermissionError {
        key_id: "subject".to_string(),
        permission: OperatorPermission::Commit,
    };
    let cases = vec![
        (FailureKind::FirstEntryIsNotInit, OperatorValidationError::FirstEntryIsNotInit),
        (FailureKind::InitialRecordDoesNotInit, OperatorValidationError::InitialRecordDoesNotInit),
        (
            FailureKind::KeyIdNotRecognized,
            OperatorValidationError::KeyIdNotRecognized("subject".to_string()),
        ),
        (
            FailureKind::InitialEntryAfterBeginning,
            OperatorValidationError::InitialEntryAfterBeginning,
        ),
        (FailureKind::UnauthorizedAction, OperatorValidationError::UnauthorizedAction(named.clone())),
        (
            FailureKind::PermissionNotFoundToRevoke,
            OperatorValidationError::PermissionNotFoundToRevoke(named),
        ),
        (FailureKind::SignatureInvalid, OperatorValidationError::SignatureInvalid),
        (
            FailureKind::IncorrectHashAlgorithm,
            OperatorValidationError::IncorrectHashAlgorithm(UnexpectedHashAlgorithm {
                found: "subject".to_string(),
                expected: "expected".to_string(),
            }),
        ),
        (FailureKind::RecordHashDoesNotMatch, OperatorValidationError::RecordHashDoesNotMatch),
        (FailureKind::PreviousHashOnFirstRecord, OperatorValidationError::PreviousHashOnFirstRecord),
        (FailureKind::NoPreviousHashAfterInit, OperatorValidationError::NoPreviousHashAfterInit),
        (
            FailureKind::ProtocolVersionNotAllowed,
            OperatorValidationError::ProtocolVersionNotAllowed(5),
        ),
        (
            FailureKind::TimestampLowerThanPrevious,
            OperatorValidationError::TimestampLowerThanPrevious,
        ),
        (FailureKind::Other, OperatorValidationError::UnexpectedValidationError),
        (FailureKind::ReleaseOfReleased, OperatorValidationError::UnexpectedValidationError),
        (FailureKind::YankOfUnreleased, OperatorValidationError::UnexpectedValidationError),
        (FailureKind::YankOfYanked, OperatorValidationError::UnexpectedValidationError),
    ];
    for (kind, expected) in cases {
        assert_eq!(operator_rejection(operator_failure(kind)), expected);
    }
}

#[test]
fn operator_rejection_with_a_permission_of_another_log() {
    let mut raw = operator_failure(FailureKind::UnauthorizedAction);
    raw.permission = RawPermission::Release;
    assert_eq!(operator_rejection(raw), OperatorValidationError::UnknownOperatorPermission);
    let mut raw = operator_failure(FailureKind::PermissionNotFoundToRevoke);
    raw.permission = RawPermission::Other;
    assert_eq!(operator_rejection(raw), OperatorValidationError::UnknownOperatorPermission);
}

#[test]
fn operator_encode_rejects_a_timestamp_that_stands_for_no_time() {
    for timestamp in [
        Timestamp { seconds: -1, nanos: 0 },
        Timestamp { seconds: 7, nanos: -1 },
        Timestamp { seconds: i64::MAX, nanos: i32::MAX },
    ] {
        let rec = OperatorRecordData { prev: None, version: 0, timestamp, entries: vec![] };
        assert_eq!(encode_operator_record(rec), Err(OperatorEncodeErrno::InvalidTimestamp));
    }
    let rec = OperatorRecordData {
        prev: Some("bad".to_string()),
        version: 0,
        timestamp: Timestamp { seconds: -1, nanos: 0 },
        entries: vec![],
    };
    assert_eq!(encode_operator_record(rec), Err(OperatorEncodeErrno::PrevRecordIdInvalidFormat));
}

#[test]
fn operator_encoding_carries_whole_seconds_of_nanoseconds() {
    let late = OperatorRecordData {
        prev: None,
        version: 0,
        timestamp: Timestamp { seconds: 7, nanos: 2_000_000_001 },
        entries: vec![],
    };
    let carried = OperatorRecordData {
        timestamp: Timestamp { seconds: 9, nanos: 1 },
        ..late.clone()
    };
    let encoded = encode_operator_record(late).unwrap();
    assert_eq!(encoded, encode_operator_record(carried.clone()).unwrap());
    assert_eq!(decode_operator_record(encoded.content_bytes), Ok(carried));
    assert_eq!(encoded.record_id.len(), 71);
}

#[test]
fn operator_decode_rejects_a_time_before_the_epoch() {
    let outside = warg_protocol::operator::OperatorRecord {
        prev: None,
        version: 0,
        timestamp: std::time::UNIX_EPOCH - std::time::Duration::new(0, 1),
        entries: vec![],
    };
    let bytes = warg_crypto::Encode::encode(&outside);
    assert_eq!(decode_operator_record(bytes), Err(OperatorDecodeErrno::FailedToDecode));
}
