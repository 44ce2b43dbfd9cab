//! The operator log: the records that say which keys may commit to the
//! registry, their canonical encoding, and the validator that accepts them
//! in order.

use vstd::prelude::*;
use crate::record::{
    canonical_entry, canonical_header, canonical_record, digest_text, entry_models, failure_of,
    is_canonical_record, lemma_canonical_record_is_itself, permissions_of, record_digest_text,
    reported_kind, text_of, timestamp_in_range, timestamp_representable, without_permissions,
    EntryModel, Envelope, EnvelopeModel, FailureKind, FailureModel, RawEntry, RawFailure,
    RawHeader, RawPermission, RawRecord, RecordHeader, RecordModel, ReportModel, Timestamp,
    UnexpectedHashAlgorithm,
};
use crate::text::{
    algorithm_name, canonical_public_key, check_hash_text, hash_algorithm_parses, is_canonical_key,
    is_hash_text, is_public_key_text, is_sha256_text, is_signature_text, signature_parses,
};

verus! {

/// A capability that a key may hold in an operator log.
#[derive(Clone, Copy, Debug, PartialEq, Eq, Structural)]
pub enum OperatorPermission {
    Commit,
}

impl OperatorPermission {
    /// The permission as a record carries it.
    pub open spec fn raw(self) -> RawPermission {
        match self {
            OperatorPermission::Commit => RawPermission::Commit,
        }
    }
}

/// The first entry of a log: its hash algorithm and its first key.
#[derive(Clone, Debug, PartialEq, Eq)]
pub struct OperatorInit {
    pub hash_algorithm: String,
    pub key: String,
}

/// Grants permissions to a public key.
#[derive(Clone, Debug, PartialEq, Eq)]
pub struct OperatorGrantFlat {
    pub key: String,
    pub permissions: Vec<OperatorPermission>,
}

/// Revokes permissions from the key with the identifier `key`.
#[derive(Clone, Debug, PartialEq, Eq)]
pub struct OperatorRevokeFlat {
    pub key: String,
    pub permissions: Vec<OperatorPermission>,
}

/// One entry of an operator record.
#[derive(Clone, Debug, PartialEq, Eq)]
pub enum OperatorEntry {
    OperatorInit(OperatorInit),
    OperatorGrantFlat(OperatorGrantFlat),
    OperatorRevokeFlat(OperatorRevokeFlat),
}

/// An operator record: entries published together by one author.
#[derive(Clone, Debug, PartialEq, Eq)]
pub struct OperatorRecordData {
    pub prev: Option<String>,
    pub version: u32,
    pub timestamp: Timestamp,
    pub entries: Vec<OperatorEntry>,
}

/// The canonical bytes of a record and the identifier derived from them.
#[derive(Clone, Debug, PartialEq, Eq)]
pub struct EncodedOperatorRecord {
    pub content_bytes: Vec<u8>,
    pub record_id: String,
}

/// Why a record cannot be encoded.
#[derive(Clone, Copy, Debug, PartialEq, Eq, Structural)]
pub enum OperatorEncodeErrno {
    PrevRecordIdInvalidFormat,
    InvalidTimestamp,
    UnsupportedHashAlgorithm,
    PublicKeyParseFailure,
}

/// Why bytes cannot be read as a record.
#[derive(Clone, Copy, Debug, PartialEq, Eq, Structural)]
pub enum OperatorDecodeErrno {
    FailedToDecode,
    UnknownOperatorPermission,
    UnknownOperatorEntry,
}

/// The permissions of a list as a record carries them.
pub open spec fn raw_permissions(permissions: Seq<OperatorPermission>) -> Seq<RawPermission> {
    permissions.map_values(|p: OperatorPermission| p.raw())
}

impl View for OperatorEntry {
    type V = EntryModel;

    open spec fn view(&self) -> EntryModel {
        match *self {
            OperatorEntry::OperatorInit(init) => EntryModel::Init {
                hash_algorithm: init.hash_algorithm@,
                key: init.key@,
            },
            OperatorEntry::OperatorGrantFlat(grant) => EntryModel::GrantFlat {
                key: grant.key@,
                permissions: raw_permissions(grant.permissions@),
            },
            OperatorEntry::OperatorRevokeFlat(revoke) => EntryModel::RevokeFlat {
                key_id: revoke.key@,
                permissions: raw_permissions(revoke.permissions@),
            },
        }
    }
}

/// The models of the entries of a record, in order.
pub open spec fn operator_entry_models(entries: Seq<OperatorEntry>) -> Seq<EntryModel> {
    entries.map_values(|e: OperatorEntry| e@)
}

impl View for OperatorRecordData {
    type V = RecordModel;

    open spec fn view(&self) -> RecordModel {
        RecordModel {
            header: RecordHeader {
                prev: text_of(self.prev),
                version: self.version,
                time: Some(self.timestamp),
            },
            entries: operator_entry_models(self.entries@),
        }
    }
}

/// The domain prefix of operator record identifiers.
pub open spec fn operator_record_prefix() -> Seq<char> {
    "WARG-OPERATOR-LOG-RECORD-V0:"@
}

// ---------------------------------------------------------------------------
// Encoding
// ---------------------------------------------------------------------------

/// The first field of an entry that has no canonical form, if any.
pub open spec fn entry_encode_error(entry: EntryModel) -> Option<OperatorEncodeErrno> {
    match entry {
        EntryModel::Init { hash_algorithm, key } => if hash_algorithm != algorithm_name() {
            Some(OperatorEncodeErrno::UnsupportedHashAlgorithm)
        } else if !is_public_key_text(key) {
            Some(OperatorEncodeErrno::PublicKeyParseFailure)
        } else {
            None
        },
        EntryModel::GrantFlat { key, .. } => if !is_public_key_text(key) {
            Some(OperatorEncodeErrno::PublicKeyParseFailure)
        } else {
            None
        },
        _ => None,
    }
}

/// The error of the first entry that has one, if any.
pub open spec fn entries_encode_error(entries: Seq<EntryModel>) -> Option<OperatorEncodeErrno>
    decreases entries.len(),
{
    if entries.len() == 0 {
        None
    } else {
        match entries_encode_error(entries.drop_last()) {
            Some(e) => Some(e),
            None => entry_encode_error(entries.last()),
        }
    }
}

/// Why the header of a record cannot be encoded, if it cannot: its previous
/// record identifier is malformed, or else its timestamp stands for no time.
pub open spec fn header_error(header: RecordHeader) -> Option<OperatorEncodeErrno> {
    if header.prev matches Some(prev) && !is_hash_text(prev) {
        Some(OperatorEncodeErrno::PrevRecordIdInvalidFormat)
    } else if !(header.time matches Some(t) && timestamp_representable(t)) {
        Some(OperatorEncodeErrno::InvalidTimestamp)
    } else {
        None
    }
}

/// Why a record cannot be encoded, if it cannot: a malformed header comes
/// before any malformed entry.
pub open spec fn encode_error(record: RecordModel) -> Option<OperatorEncodeErrno> {
    match header_error(record.header) {
        Some(e) => Some(e),
        None => entries_encode_error(record.entries),
    }
}

/// `encoded` holds the encoding of the record: the bytes of the record in
/// canonical form, which are read back as that record, and the identifier
/// that is the digest of the operator record prefix followed by the bytes.
pub open spec fn is_encoding_of(encoded: EncodedOperatorRecord, record: RecordModel) -> bool {
    &&& encoded.content_bytes@ == operator_encoding(canonical_record(record))
    &&& encoded.record_id@ == record_digest_text(
        operator_record_prefix(),
        encoded.content_bytes@,
    )
    &&& is_sha256_text(encoded.record_id@)
    &&& decode_outcome(operator_decoding(encoded.content_bytes@)) == Ok::<
        RecordModel,
        OperatorDecodeErrno,
    >(canonical_record(record))
}

/// What is returned for a record once its header is found well formed and
/// the record that holds its header is made, or cannot be made: the error
/// of the entries, if they have one, else the encoding.
pub open spec fn is_encode_result(
    r: Result<EncodedOperatorRecord, OperatorEncodeErrno>,
    made: bool,
    record: RecordModel,
) -> bool {
    if !made {
        r == Err::<EncodedOperatorRecord, OperatorEncodeErrno>(OperatorEncodeErrno::InvalidTimestamp)
    } else {
        match entries_encode_error(record.entries) {
            Some(e) => r == Err::<EncodedOperatorRecord, OperatorEncodeErrno>(e),
            None => r matches Ok(encoded) && is_encoding_of(encoded, record),
        }
    }
}

/// `OperatorRecord` of `warg-protocol`, opaque to the verifier.
#[verifier::external_type_specification]
#[verifier::external_body]
pub struct ExOperatorRecord(warg_protocol::operator::OperatorRecord);

/// The entries that a record of `warg-protocol` holds, in order.
pub uninterp spec fn operator_entries(record: warg_protocol::operator::OperatorRecord) -> Seq<
    EntryModel,
>;

/// What a record of `warg-protocol` holds besides its entries. Its time is
/// `None` where it lies before the epoch, or so far after it that its
/// seconds have no signed number of 64 bits.
pub uninterp spec fn operator_header(record: warg_protocol::operator::OperatorRecord) -> RecordHeader;

/// The whole of what a record of `warg-protocol` holds.
pub open spec fn operator_model(record: warg_protocol::operator::OperatorRecord) -> RecordModel {
    RecordModel { header: operator_header(record), entries: operator_entries(record) }
}

/// The bytes that `Encode::encode` of `warg-protocol` gives for an operator
/// record with this content, where the content is all of the record: a time
/// that is not `None`, and no entry or permission that reads as `Other`.
pub uninterp spec fn operator_encoding(record: RecordModel) -> Seq<u8>;

/// What `Decode::decode` of `warg-protocol` reads from bytes as an operator
/// record, if it reads one.
pub uninterp spec fn operator_decoding(bytes: Seq<u8>) -> Option<RecordModel>;

/// Builds an `OperatorRecord` of `warg-protocol` without entries, with the
/// previous record and the version that are given. Its time is made with
/// `SystemTime::checked_add`: there is no record where the clock of the
/// machine cannot hold the time, and nothing is said of the time that a
/// record holds, since the clock may count in coarser steps.
#[verifier::external_body]
fn new_operator_record(prev: &Option<String>, version: u32, timestamp: Timestamp) -> (r: Option<
    warg_protocol::operator::OperatorRecord,
>)
    requires
        prev matches Some(p) ==> is_hash_text(p@),
        timestamp_in_range(timestamp),
    ensures
        r matches Some(record) ==> operator_entries(record) == Seq::<EntryModel>::empty(),
        r matches Some(record) ==> operator_header(record).prev == text_of(*prev),
        r matches Some(record) ==> operator_header(record).version == version,
{
    let prev = prev.as_ref().map(|p| p.parse::<warg_crypto::hash::AnyHash>().unwrap().into());
    let since_epoch = std::time::Duration::new(timestamp.seconds as u64, timestamp.nanos as u32);
    let timestamp = std::time::SystemTime::UNIX_EPOCH.checked_add(since_epoch)?;
    Some(warg_protocol::operator::OperatorRecord { prev, version, timestamp, entries: Vec::new() })
}

/// Appends an `Init` entry to a record of `warg-protocol`. The key is read
/// from its canonical text, which is what the entry shows again.
#[verifier::external_body]
fn push_init(record: &mut warg_protocol::operator::OperatorRecord, hash_algorithm: &str, key: &str)
    requires
        hash_algorithm@ == algorithm_name(),
        is_canonical_key(key@),
    ensures
        operator_header(*final(record)) == operator_header(*old(record)),
        operator_entries(*final(record)) == operator_entries(*old(record)).push(
            EntryModel::Init { hash_algorithm: hash_algorithm@, key: key@ },
        ),
{
    record.entries.push(
        warg_protocol::operator::OperatorEntry::Init {
            hash_algorithm: hash_algorithm.parse().unwrap(),
            key: key.parse().unwrap(),
        },
    );
}

/// Appends a `GrantFlat` entry to a record of `warg-protocol`. The key is
/// read from its canonical text, which is what the entry shows again. The
/// permission type of operator records has no public path and is reached
/// through its text form, `commit`.
#[verifier::external_body]
fn push_grant(
    record: &mut warg_protocol::operator::OperatorRecord,
    key: &str,
    permissions: &Vec<OperatorPermission>,
)
    requires
        is_canonical_key(key@),
    ensures
        operator_header(*final(record)) == operator_header(*old(record)),
        operator_entries(*final(record)) == operator_entries(*old(record)).push(
            EntryModel::GrantFlat { key: key@, permissions: raw_permissions(permissions@) },
        ),
{
    let permissions = permissions.iter().map(|p| match p {
        OperatorPermission::Commit => "commit".parse().unwrap(),
    }).collect();
    let key = key.parse().unwrap();
    record.entries.push(warg_protocol::operator::OperatorEntry::GrantFlat { key, permissions });
}

/// Appends a `RevokeFlat` entry to a record of `warg-protocol`. The
/// permission is written in its text form, `commit`.
#[verifier::external_body]
fn push_revoke(
    record: &mut warg_protocol::operator::OperatorRecord,
    key_id: &str,
    permissions: &Vec<OperatorPermission>,
)
    ensures
        operator_header(*final(record)) == operator_header(*old(record)),
        operator_entries(*final(record)) == operator_entries(*old(record)).push(
            EntryModel::RevokeFlat { key_id: key_id@, permissions: raw_permissions(permissions@) },
        ),
{
    let permissions = permissions.iter().map(|p| match p {
        OperatorPermission::Commit => "commit".parse().unwrap(),
    }).collect();
    let key_id = key_id.to_string().into();
    record.entries.push(warg_protocol::operator::OperatorEntry::RevokeFlat { key_id, permissions });
}

/// `Encode::encode` of `warg-protocol` on an operator record whose content is
/// all that it holds. What it writes, `Decode::decode` reads back as the
/// same record.
#[verifier::external_body]
fn encode_record_bytes(record: &warg_protocol::operator::OperatorRecord) -> (bytes: Vec<u8>)
    requires
        decode_error(operator_model(*record)) is None,
    ensures
        bytes@ == operator_encoding(operator_model(*record)),
        operator_decoding(bytes@) == Some(operator_model(*record)),
{
    warg_crypto::Encode::encode(record)
}

/// Checks one entry and, if every field of it has a canonical form, appends
/// it in that form to the record under construction.
fn push_entry(record: &mut warg_protocol::operator::OperatorRecord, entry: &OperatorEntry) -> (r:
    Result<(), OperatorEncodeErrno>)
    ensures
        operator_header(*final(record)) == operator_header(*old(record)),
        match entry_encode_error(entry@) {
            Some(e) => r == Err::<(), OperatorEncodeErrno>(e) && operator_entries(*final(record))
                == operator_entries(*old(record)),
            None => r is Ok && operator_entries(*final(record)) == operator_entries(
                *old(record),
            ).push(canonical_entry(entry@)),
        },
{
    match entry {
        OperatorEntry::OperatorInit(init) => {
            if !hash_algorithm_parses(init.hash_algorithm.as_str()) {
                return Err(OperatorEncodeErrno::UnsupportedHashAlgorithm);
            }
            match canonical_public_key(init.key.as_str()) {
                Some(key) => push_init(record, init.hash_algorithm.as_str(), key.as_str()),
                None => {
                    return Err(OperatorEncodeErrno::PublicKeyParseFailure);
                },
            }
        },
        OperatorEntry::OperatorGrantFlat(grant) => {
            match canonical_public_key(grant.key.as_str()) {
                Some(key) => push_grant(record, key.as_str(), &grant.permissions),
                None => {
                    return Err(OperatorEncodeErrno::PublicKeyParseFailure);
                },
            }
        },
        OperatorEntry::OperatorRevokeFlat(revoke) => {
            push_revoke(record, revoke.key.as_str(), &revoke.permissions);
        },
    }
    Ok(())
}

/// Keeps a record of `warg-protocol` only where the time that is read back
/// from it is the time that was asked for.
fn with_time(made: Option<warg_protocol::operator::OperatorRecord>, timestamp: Timestamp) -> (r:
    Option<warg_protocol::operator::OperatorRecord>)
    ensures
        r matches Some(record) ==> made == Some(record) && operator_header(record).time == Some(
            timestamp,
        ),
        r is None ==> !(made matches Some(record) && operator_header(record).time == Some(
            timestamp,
        )),
{
    match made {
        Some(record) => {
            let header = read_operator_header(&record);
            match header.time {
                Some(t) => if t.seconds == timestamp.seconds && t.nanos == timestamp.nanos {
                    Some(record)
                } else {
                    None
                },
                None => None,
            }
        },
        None => None,
    }
}

/// Checks the entries of a record and encodes it, given the record of
/// `warg-protocol` that holds its header, or none where that record could
/// not be made.
fn encode_entries(made: Option<warg_protocol::operator::OperatorRecord>, rec: &OperatorRecordData) -> (r:
    Result<EncodedOperatorRecord, OperatorEncodeErrno>)
    requires
        header_error(rec@.header) is None,
        made matches Some(record) ==> operator_entries(record) == Seq::<EntryModel>::empty()
            && operator_header(record) == canonical_header(rec@.header),
    ensures
        is_encode_result(r, made is Some, rec@),
{
    let mut record = match made {
        Some(record) => record,
        None => {
            return Err(OperatorEncodeErrno::InvalidTimestamp);
        },
    };
    let ghost models = operator_entry_models(rec.entries@);
    let mut i: usize = 0;
    proof {
        assert(canonical_record(rec@).entries.take(0) == Seq::<EntryModel>::empty());
    }
    while i < rec.entries.len()
        invariant
            0 <= i <= rec.entries.len(),
            models == operator_entry_models(rec.entries@),
            operator_header(record) == canonical_header(rec@.header),
            operator_entries(record) == canonical_record(rec@).entries.take(i as int),
            entries_encode_error(models.take(i as int)) is None,
            made is Some,
        decreases rec.entries.len() - i,
    {
        proof {
            assert(models.take(i + 1).drop_last() == models.take(i as int));
            assert(models.take(i + 1).last() == rec.entries@[i as int]@);
            assert(canonical_record(rec@).entries.take(i + 1) == canonical_record(
                rec@,
            ).entries.take(i as int).push(canonical_entry(rec.entries@[i as int]@)));
        }
        match push_entry(&mut record, &rec.entries[i]) {
            Ok(()) => {},
            Err(e) => {
                proof {
                    assert(entries_encode_error(models.take(i + 1)) == Some(e));
                    lemma_first_error_stays(models, i + 1);
                }
                return Err(e);
            },
        }
        i += 1;
    }
    proof {
        assert(models.take(i as int) == models);
        assert(canonical_record(rec@).entries.take(i as int) == canonical_record(rec@).entries);
        assert(operator_model(record) == canonical_record(rec@));
        lemma_expressible_records_decode(*rec);
    }
    let content_bytes = encode_record_bytes(&record);
    let record_id = digest_text("WARG-OPERATOR-LOG-RECORD-V0:", &content_bytes);
    Ok(EncodedOperatorRecord { content_bytes, record_id })
}

/// Encodes a record and derives its identifier.
///
/// Fails on the first field without a canonical form: the previous record
/// identifier, then the timestamp, then the entries in order. A timestamp
/// with negative seconds or nanoseconds, or with seconds that overflow once
/// its surplus nanoseconds are carried over, is `InvalidTimestamp`; so is
/// one that the clock of the machine cannot hold, or cannot hold to the
/// nanosecond. Otherwise the bytes are
/// the encoding of the record in canonical form (surplus nanoseconds carried
/// over, every public key in canonical text), `decode_operator_record`
/// reads them back as that record, and the identifier is the digest of the
/// operator record prefix followed by those bytes.
pub fn encode_operator_record(rec: OperatorRecordData) -> (r: Result<
    EncodedOperatorRecord,
    OperatorEncodeErrno,
>)
    ensures
        match header_error(rec@.header) {
            Some(e) => r == Err::<EncodedOperatorRecord, OperatorEncodeErrno>(e),
            None => is_encode_result(r, true, rec@) || is_encode_result(r, false, rec@),
        },
        r matches Ok(encoded) ==> encode_error(rec@) is None && is_encoding_of(encoded, rec@),
{
    if let Some(prev) = &rec.prev {
        if check_hash_text(prev.as_str()).is_err() {
            return Err(OperatorEncodeErrno::PrevRecordIdInvalidFormat);
        }
    }
    if !rec.timestamp.is_representable() {
        return Err(OperatorEncodeErrno::InvalidTimestamp);
    }
    let timestamp = rec.timestamp.normalize();
    let made = with_time(new_operator_record(&rec.prev, rec.version, timestamp), timestamp);
    encode_entries(made, &rec)
}

/// An error among the first `n` entries is the error of the whole list.
pub proof fn lemma_first_error_stays(entries: Seq<EntryModel>, n: int)
    requires
        0 <= n <= entries.len(),
        entries_encode_error(entries.take(n)) is Some,
    ensures
        entries_encode_error(entries) == entries_encode_error(entries.take(n)),
    decreases entries.len() - n,
{
    if n < entries.len() {
        assert(entries.take(n + 1).drop_last() == entries.take(n));
        lemma_first_error_stays(entries, n + 1);
    } else {
        assert(entries.take(n) == entries);
    }
}

// ---------------------------------------------------------------------------
// Decoding
// ---------------------------------------------------------------------------

/// A permission that an operator log knows.
pub open spec fn known_permission(permission: RawPermission) -> bool {
    permission is Commit
}

/// Why an entry read from bytes cannot be shown, if it cannot: it is none
/// of the three kinds of the operator log, or one of the permissions that it
/// grants or revokes is unknown.
pub open spec fn entry_decode_error(entry: EntryModel) -> Option<OperatorDecodeErrno> {
    if !(entry is Init || entry is GrantFlat || entry is RevokeFlat) {
        Some(OperatorDecodeErrno::UnknownOperatorEntry)
    } else if forall|i: int|
        0 <= i < permissions_of(entry).len() ==> known_permission(
            #[trigger] permissions_of(entry)[i],
        ) {
        None
    } else {
        Some(OperatorDecodeErrno::UnknownOperatorPermission)
    }
}

/// The error of the first entry that has one, if any.
pub open spec fn entries_decode_error(entries: Seq<EntryModel>) -> Option<OperatorDecodeErrno>
    decreases entries.len(),
{
    if entries.len() == 0 {
        None
    } else {
        match entries_decode_error(entries.drop_last()) {
            Some(e) => Some(e),
            None => entry_decode_error(entries.last()),
        }
    }
}

/// Why a record read from bytes cannot be shown, if it cannot: a time before
/// the epoch comes before any unknown entry or permission.
pub open spec fn decode_error(record: RecordModel) -> Option<OperatorDecodeErrno> {
    if record.header.time is None {
        Some(OperatorDecodeErrno::FailedToDecode)
    } else {
        entries_decode_error(record.entries)
    }
}

/// What `decode_operator_record` returns for what the bytes were read as.
pub open spec fn decode_outcome(read: Option<RecordModel>) -> Result<
    RecordModel,
    OperatorDecodeErrno,
> {
    match read {
        None => Err(OperatorDecodeErrno::FailedToDecode),
        Some(record) => match decode_error(record) {
            Some(e) => Err(e),
            None => Ok(record),
        },
    }
}

/// `Decode::decode` of `warg-protocol` for an operator record.
#[verifier::external_body]
fn decode_record_bytes(bytes: &Vec<u8>) -> (r: Option<warg_protocol::operator::OperatorRecord>)
    ensures
        match r {
            Some(record) => operator_decoding(bytes@) == Some(operator_model(record)),
            None => operator_decoding(bytes@) is None,
        },
{
    <warg_protocol::operator::OperatorRecord as warg_crypto::Decode>::decode(bytes).ok()
}

/// Reads the fields of a record of `warg-protocol` that are not entries.
/// The time is read with `SystemTime::duration_since` the epoch, which
/// gives whole seconds and less than a second of nanoseconds; it is none
/// where the time lies before the epoch or its seconds do not fit.
#[verifier::external_body]
fn read_operator_header(record: &warg_protocol::operator::OperatorRecord) -> (header: RawHeader)
    ensures
        header@ == operator_header(*record),
        header.time matches Some(t) ==> timestamp_in_range(t),
{
    let since_epoch = record.timestamp.duration_since(std::time::UNIX_EPOCH).ok();
    let time = since_epoch.and_then(
        |d| Some(Timestamp { seconds: d.as_secs().try_into().ok()?, nanos: d.subsec_nanos() as i32 }),
    );
    RawHeader { prev: record.prev.as_ref().map(|p| p.to_string()), version: record.version, time }
}

/// The number of entries of a record of `warg-protocol`.
#[verifier::external_body]
fn operator_entry_count(record: &warg_protocol::operator::OperatorRecord) -> (n: usize)
    ensures
        n == operator_entries(*record).len(),
{
    record.entries.len()
}

/// Reads one entry of a record of `warg-protocol`, all but the permissions
/// that it grants or revokes.
#[verifier::external_body]
fn read_entry_fields(record: &warg_protocol::operator::OperatorRecord, index: usize) -> (entry:
    RawEntry)
    requires
        index < operator_entries(*record).len(),
    ensures
        entry@ == without_permissions(operator_entries(*record)[index as int]),
{
    match &record.entries[index] {
        warg_protocol::operator::OperatorEntry::Init { hash_algorithm, key } => RawEntry::Init { hash_algorithm: hash_algorithm.to_string(), key: key.to_string() },
        warg_protocol::operator::OperatorEntry::GrantFlat { key, .. } => RawEntry::GrantFlat { key: key.to_string(), permissions: Vec::new() },
        warg_protocol::operator::OperatorEntry::RevokeFlat { key_id, .. } => RawEntry::RevokeFlat { key_id: key_id.to_string(), permissions: Vec::new() },
        _ => RawEntry::Other,
    }
}

/// Reads the permissions that one entry of a record of `warg-protocol`
/// grants or revokes, telling them apart by their text form.
#[verifier::external_body]
fn read_entry_permissions(record: &warg_protocol::operator::OperatorRecord, index: usize) -> (permissions:
    Vec<RawPermission>)
    requires
        index < operator_entries(*record).len(),
    ensures
        permissions@ == permissions_of(operator_entries(*record)[index as int]),
{
    match &record.entries[index] {
        warg_protocol::operator::OperatorEntry::GrantFlat { permissions, .. }
        | warg_protocol::operator::OperatorEntry::RevokeFlat { permissions, .. } => {
            permissions.iter().map(|p| match p.to_string().as_str() {
                "commit" => RawPermission::Commit,
                _ => RawPermission::Other,
            }).collect()
        },
        _ => Vec::new(),
    }
}

/// Copies a record of `warg-protocol` into plain values. Its time, if it has
/// one, has less than a second of nanoseconds.
fn read_operator_record(record: &warg_protocol::operator::OperatorRecord) -> (raw: RawRecord)
    ensures
        raw@ == operator_model(*record),
        raw.header.time matches Some(t) ==> timestamp_in_range(t),
{
    let header = read_operator_header(record);
    let n = operator_entry_count(record);
    let mut entries: Vec<RawEntry> = Vec::new();
    let mut i: usize = 0;
    while i < n
        invariant
            0 <= i <= n,
            n == operator_entries(*record).len(),
            entry_models(entries@) == operator_entries(*record).take(i as int),
        decreases n - i,
    {
        let fields = read_entry_fields(record, i);
        let permissions = read_entry_permissions(record, i);
        let entry = match fields {
            RawEntry::GrantFlat { key, .. } => RawEntry::GrantFlat { key, permissions },
            RawEntry::RevokeFlat { key_id, .. } => RawEntry::RevokeFlat { key_id, permissions },
            other => other,
        };
        proof {
            let model = operator_entries(*record)[i as int];
            assert(entry@ == model);
            assert(entry_models(entries@.push(entry)) == entry_models(entries@).push(entry@));
            assert(operator_entries(*record).take(i + 1) == operator_entries(*record).take(
                i as int,
            ).push(model));
        }
        entries.push(entry);
        i += 1;
    }
    proof {
        assert(operator_entries(*record).take(i as int) == operator_entries(*record));
    }
    RawRecord { header, entries }
}

/// The permissions of a list, if an operator log knows them all.
fn known_permissions(raw: &Vec<RawPermission>) -> (r: Option<Vec<OperatorPermission>>)
    ensures
        r is Some <==> (forall|i: int| 0 <= i < raw@.len() ==> known_permission(#[trigger] raw@[i])),
        r matches Some(permissions) ==> raw_permissions(permissions@) == raw@,
{
    let mut permissions: Vec<OperatorPermission> = Vec::new();
    let mut i: usize = 0;
    while i < raw.len()
        invariant
            0 <= i <= raw.len(),
            forall|j: int| 0 <= j < i ==> known_permission(#[trigger] raw@[j]),
            raw_permissions(permissions@) == raw@.take(i as int),
        decreases raw.len() - i,
    {
        let permission = match raw[i] {
            RawPermission::Commit => OperatorPermission::Commit,
            _ => {
                return None;
            },
        };
        proof {
            assert(raw_permissions(permissions@.push(permission)) == raw_permissions(
                permissions@,
            ).push(permission.raw()));
            assert(raw@.take(i + 1) == raw@.take(i as int).push(raw@[i as int]));
        }
        permissions.push(permission);
        i += 1;
    }
    proof {
        assert(raw@.take(i as int) == raw@);
    }
    Some(permissions)
}

/// Shows one entry read from bytes in the vocabulary of the operator log.
fn interpret_entry(raw: &RawEntry) -> (r: Result<OperatorEntry, OperatorDecodeErrno>)
    ensures
        match entry_decode_error(raw@) {
            Some(e) => r == Err::<OperatorEntry, OperatorDecodeErrno>(e),
            None => r matches Ok(entry) && entry@ == raw@,
        },
{
    proof {
        match raw {
            RawEntry::GrantFlat { permissions, .. } => {
                assert(permissions_of(raw@) == permissions@);
            },
            RawEntry::RevokeFlat { permissions, .. } => {
                assert(permissions_of(raw@) == permissions@);
            },
            _ => {
                assert(permissions_of(raw@).len() == 0);
            },
        }
    }
    match raw {
        RawEntry::Init { hash_algorithm, key } => Ok(
            OperatorEntry::OperatorInit(
                OperatorInit { hash_algorithm: hash_algorithm.clone(), key: key.clone() },
            ),
        ),
        RawEntry::GrantFlat { key, permissions } => match known_permissions(permissions) {
            Some(permissions) => Ok(
                OperatorEntry::OperatorGrantFlat(OperatorGrantFlat { key: key.clone(), permissions }),
            ),
            None => Err(OperatorDecodeErrno::UnknownOperatorPermission),
        },
        RawEntry::RevokeFlat { key_id, permissions } => match known_permissions(permissions) {
            Some(permissions) => Ok(
                OperatorEntry::OperatorRevokeFlat(
                    OperatorRevokeFlat { key: key_id.clone(), permissions },
                ),
            ),
            None => Err(OperatorDecodeErrno::UnknownOperatorPermission),
        },
        _ => Err(OperatorDecodeErrno::UnknownOperatorEntry),
    }
}

/// Shows a record read from bytes in the vocabulary of the operator log.
///
/// Fails with `FailedToDecode` where the record's time lies before the
/// epoch, else with the error of the first entry whose kind, or one of whose
/// permissions, is unknown. Otherwise the record shown has exactly the
/// content that was read.
pub fn interpret_operator_record(raw: RawRecord) -> (r: Result<
    OperatorRecordData,
    OperatorDecodeErrno,
>)
    ensures
        match decode_error(raw@) {
            Some(e) => r == Err::<OperatorRecordData, OperatorDecodeErrno>(e),
            None => r matches Ok(record) && record@ == raw@,
        },
        r matches Ok(record) ==> Some(record.timestamp) == raw.header.time,
{
    let timestamp = match raw.header.time {
        Some(timestamp) => timestamp,
        None => {
            return Err(OperatorDecodeErrno::FailedToDecode);
        },
    };
    let ghost models = entry_models(raw.entries@);
    let mut entries: Vec<OperatorEntry> = Vec::new();
    let mut i: usize = 0;
    while i < raw.entries.len()
        invariant
            0 <= i <= raw.entries.len(),
            models == entry_models(raw.entries@),
            operator_entry_models(entries@) == models.take(i as int),
            entries_decode_error(models.take(i as int)) is None,
            raw.header.time is Some,
        decreases raw.entries.len() - i,
    {
        proof {
            assert(models.take(i + 1).drop_last() == models.take(i as int));
            assert(models.take(i + 1) == models.take(i as int).push(raw.entries@[i as int]@));
        }
        match interpret_entry(&raw.entries[i]) {
            Ok(entry) => {
                proof {
                    assert(operator_entry_models(entries@.push(entry)) == operator_entry_models(
                        entries@,
                    ).push(entry@));
                }
                entries.push(entry);
            },
            Err(e) => {
                proof {
                    assert(entries_decode_error(models.take(i + 1)) == Some(e));
                    lemma_first_decode_error_stays(models, i + 1);
                }
                return Err(e);
            },
        }
        i += 1;
    }
    proof {
        assert(models.take(i as int) == models);
    }
    let record = OperatorRecordData {
        prev: raw.header.prev,
        version: raw.header.version,
        timestamp,
        entries,
    };
    Ok(record)
}

/// An error among the first `n` entries is the error of the whole list.
pub proof fn lemma_first_decode_error_stays(entries: Seq<EntryModel>, n: int)
    requires
        0 <= n <= entries.len(),
        entries_decode_error(entries.take(n)) is Some,
    ensures
        entries_decode_error(entries) == entries_decode_error(entries.take(n)),
    decreases entries.len() - n,
{
    if n < entries.len() {
        assert(entries.take(n + 1).drop_last() == entries.take(n));
        lemma_first_decode_error_stays(entries, n + 1);
    } else {
        assert(entries.take(n) == entries);
    }
}

/// Reads a record from its canonical bytes.
///
/// Fails with `FailedToDecode` where the bytes are not a well-formed record;
/// what is returned for a well-formed one is what
/// [`interpret_operator_record`] returns for its content. The time of a
/// record that is returned is not before the epoch and has less than a
/// second of nanoseconds.
pub fn decode_operator_record(bytes: Vec<u8>) -> (r: Result<
    OperatorRecordData,
    OperatorDecodeErrno,
>)
    ensures
        match decode_outcome(operator_decoding(bytes@)) {
            Err(e) => r == Err::<OperatorRecordData, OperatorDecodeErrno>(e),
            Ok(model) => r matches Ok(record) && record@ == model,
        },
        r matches Ok(record) ==> timestamp_in_range(record.timestamp),
{
    match decode_record_bytes(&bytes) {
        Some(record) => interpret_operator_record(read_operator_record(&record)),
        None => Err(OperatorDecodeErrno::FailedToDecode),
    }
}

/// Every record that this library can express can be shown again once it
/// has been read back: none of its entries or permissions is unknown, and
/// its time is not before the epoch. The record shown is then the record
/// itself, and likewise for its canonical form.
pub proof fn lemma_expressible_records_decode(record: OperatorRecordData)
    ensures
        decode_outcome(Some(record@)) == Ok::<RecordModel, OperatorDecodeErrno>(record@),
        decode_outcome(Some(canonical_record(record@))) == Ok::<RecordModel, OperatorDecodeErrno>(
            canonical_record(record@),
        ),
{
    lemma_expressible_entries_decode(record.entries@);
}

/// No entry of the vocabulary of the operator log is unknown, in the form in
/// which it is given or in its canonical form.
pub proof fn lemma_expressible_entries_decode(entries: Seq<OperatorEntry>)
    ensures
        entries_decode_error(operator_entry_models(entries)) is None,
        entries_decode_error(
            operator_entry_models(entries).map_values(|e: EntryModel| canonical_entry(e)),
        ) is None,
    decreases entries.len(),
{
    let models = operator_entry_models(entries);
    let canonical = models.map_values(|e: EntryModel| canonical_entry(e));
    if entries.len() > 0 {
        let shorter = operator_entry_models(entries.drop_last());
        assert(models.drop_last() == shorter);
        assert(canonical.drop_last() == shorter.map_values(|e: EntryModel| canonical_entry(e)));
        lemma_expressible_entries_decode(entries.drop_last());
        let entry = entries.last();
        assert(models.last() == entry@);
        assert(canonical.last() == canonical_entry(entry@));
        assert(permissions_of(canonical_entry(entry@)) == permissions_of(entry@));
        assert forall|i: int| 0 <= i < permissions_of(entry@).len() implies known_permission(
            #[trigger] permissions_of(entry@)[i],
        ) by {
            match entry {
                OperatorEntry::OperatorGrantFlat(grant) => {
                    assert(permissions_of(entry@)[i] == grant.permissions@[i].raw());
                },
                OperatorEntry::OperatorRevokeFlat(revoke) => {
                    assert(permissions_of(entry@)[i] == revoke.permissions@[i].raw());
                },
                _ => {},
            }
        }
    }
}

/// Round trip: where the bytes of an encoded record are decoded, the record
/// returned has the content of the record that was encoded, in canonical
/// form; for a record that is in canonical form already, that is the
/// record itself.
pub proof fn lemma_decode_inverts_encode(record: OperatorRecordData, bytes: Seq<u8>)
    requires
        timestamp_representable(record.timestamp),
        operator_decoding(bytes) == Some(canonical_record(record@)),
    ensures
        decode_outcome(operator_decoding(bytes)) == Ok::<RecordModel, OperatorDecodeErrno>(
            canonical_record(record@),
        ),
        is_canonical_record(record@) ==> decode_outcome(operator_decoding(bytes)) == Ok::<
            RecordModel,
            OperatorDecodeErrno,
        >(record@),
{
    lemma_expressible_records_decode(record);
    if is_canonical_record(record@) {
        lemma_canonical_record_is_itself(record@);
    }
}

// ---------------------------------------------------------------------------
// Validation
// ---------------------------------------------------------------------------

/// A key and the permission that it lacks.
#[derive(Clone, Debug, PartialEq, Eq)]
pub struct UnauthorizedPermissionError {
    pub key_id: String,
    pub permission: OperatorPermission,
}

/// Why an envelope was not appended to an operator log.
#[derive(Clone, Debug, PartialEq, Eq)]
pub enum OperatorValidationError {
    SignatureParseFailure,
    FailedToDecodeOperatorRecord,
    UnexpectedValidationError,
    FirstEntryIsNotInit,
    InitialRecordDoesNotInit,
    KeyIdNotRecognized(String),
    InitialEntryAfterBeginning,
    UnknownOperatorPermission,
    UnauthorizedAction(UnauthorizedPermissionError),
    PermissionNotFoundToRevoke(UnauthorizedPermissionError),
    SignatureInvalid,
    IncorrectHashAlgorithm(UnexpectedHashAlgorithm),
    RecordHashDoesNotMatch,
    PreviousHashOnFirstRecord,
    NoPreviousHashAfterInit,
    ProtocolVersionNotAllowed(u32),
    TimestampLowerThanPrevious,
}

/// The permission of an operator log that a record's permission stands for.
pub open spec fn permission_named(raw: RawPermission) -> Option<OperatorPermission> {
    match raw {
        RawPermission::Commit => Some(OperatorPermission::Commit),
        _ => None,
    }
}

/// `error` names `key_id` and `permission`.
pub open spec fn names_key_and_permission(
    error: UnauthorizedPermissionError,
    key_id: Seq<char>,
    permission: OperatorPermission,
) -> bool {
    error.key_id@ == key_id && error.permission == permission
}

/// `error` is what the library reports for the rejection.
pub open spec fn is_rejection_of(error: OperatorValidationError, failure: FailureModel) -> bool {
    match failure.kind {
        FailureKind::FirstEntryIsNotInit => error is FirstEntryIsNotInit,
        FailureKind::InitialRecordDoesNotInit => error is InitialRecordDoesNotInit,
        FailureKind::KeyIdNotRecognized => error matches OperatorValidationError::KeyIdNotRecognized(
            key_id,
        ) && key_id@ == failure.subject,
        FailureKind::InitialEntryAfterBeginning => error is InitialEntryAfterBeginning,
        FailureKind::UnauthorizedAction => match permission_named(failure.permission) {
            Some(permission) => error matches OperatorValidationError::UnauthorizedAction(e)
                && names_key_and_permission(e, failure.subject, permission),
            None => error is UnknownOperatorPermission,
        },
        FailureKind::PermissionNotFoundToRevoke => match permission_named(failure.permission) {
            Some(permission) => error matches OperatorValidationError::PermissionNotFoundToRevoke(e)
                && names_key_and_permission(e, failure.subject, permission),
            None => error is UnknownOperatorPermission,
        },
        FailureKind::SignatureInvalid => error is SignatureInvalid,
        FailureKind::IncorrectHashAlgorithm => error matches OperatorValidationError::IncorrectHashAlgorithm(
            e,
        ) && e.found@ == failure.subject && e.expected@ == failure.expected,
        FailureKind::RecordHashDoesNotMatch => error is RecordHashDoesNotMatch,
        FailureKind::PreviousHashOnFirstRecord => error is PreviousHashOnFirstRecord,
        FailureKind::NoPreviousHashAfterInit => error is NoPreviousHashAfterInit,
        FailureKind::ProtocolVersionNotAllowed => error matches OperatorValidationError::ProtocolVersionNotAllowed(
            version,
        ) && version == failure.protocol_version,
        FailureKind::TimestampLowerThanPrevious => error is TimestampLowerThanPrevious,
        _ => error is UnexpectedValidationError,
    }
}

/// Names a key and the permission that it lacks, or reports that the
/// permission is none of an operator log.
fn permission_error(key_id: String, raw: RawPermission) -> (r: Option<UnauthorizedPermissionError>)
    ensures
        match permission_named(raw) {
            Some(permission) => r matches Some(e) && names_key_and_permission(
                e,
                key_id@,
                permission,
            ),
            None => r is None,
        },
{
    match raw {
        RawPermission::Commit => Some(
            UnauthorizedPermissionError { key_id, permission: OperatorPermission::Commit },
        ),
        _ => None,
    }
}

/// The error that the library reports for a rejection.
///
/// Each rule has its own error, with the key, algorithms or protocol
/// version that the validator reported. A rejection that names a
/// permission which is none of an operator log is reported as
/// `UnknownOperatorPermission`, one for an unknown rule as
/// `UnexpectedValidationError`. The result is never one of the two errors
/// that come before validation.
pub fn operator_rejection(raw: RawFailure) -> (error: OperatorValidationError)
    ensures
        is_rejection_of(error, raw@),
        !(error is SignatureParseFailure),
        !(error is FailedToDecodeOperatorRecord),
{
    match raw.kind {
        FailureKind::FirstEntryIsNotInit => OperatorValidationError::FirstEntryIsNotInit,
        FailureKind::InitialRecordDoesNotInit => OperatorValidationError::InitialRecordDoesNotInit,
        FailureKind::KeyIdNotRecognized => OperatorValidationError::KeyIdNotRecognized(raw.subject),
        FailureKind::InitialEntryAfterBeginning => {
            OperatorValidationError::InitialEntryAfterBeginning
        },
        FailureKind::UnauthorizedAction => match permission_error(raw.subject, raw.permission) {
            Some(e) => OperatorValidationError::UnauthorizedAction(e),
            None => OperatorValidationError::UnknownOperatorPermission,
        },
        FailureKind::PermissionNotFoundToRevoke => match permission_error(
            raw.subject,
            raw.permission,
        ) {
            Some(e) => OperatorValidationError::PermissionNotFoundToRevoke(e),
            None => OperatorValidationError::UnknownOperatorPermission,
        },
        FailureKind::SignatureInvalid => OperatorValidationError::SignatureInvalid,
        FailureKind::IncorrectHashAlgorithm => OperatorValidationError::IncorrectHashAlgorithm(
            UnexpectedHashAlgorithm { found: raw.subject, expected: raw.expected },
        ),
        FailureKind::RecordHashDoesNotMatch => OperatorValidationError::RecordHashDoesNotMatch,
        FailureKind::PreviousHashOnFirstRecord => OperatorValidationError::PreviousHashOnFirstRecord,
        FailureKind::NoPreviousHashAfterInit => OperatorValidationError::NoPreviousHashAfterInit,
        FailureKind::ProtocolVersionNotAllowed => OperatorValidationError::ProtocolVersionNotAllowed(
            raw.protocol_version,
        ),
        FailureKind::TimestampLowerThanPrevious => {
            OperatorValidationError::TimestampLowerThanPrevious
        },
        _ => OperatorValidationError::UnexpectedValidationError,
    }
}

/// `LogState` of `warg-protocol` for the operator log, opaque to the verifier.
#[verifier::external_type_specification]
#[verifier::external_body]
pub struct ExOperatorLogState(warg_protocol::operator::LogState);

/// `ValidationError` of `warg-protocol` for the operator log, opaque to the
/// verifier.
#[verifier::external_type_specification]
#[verifier::external_body]
pub struct ExOperatorValidationError(warg_protocol::operator::ValidationError);

/// The envelopes that a `LogState` of `warg-protocol` has accepted, oldest
/// first.
pub uninterp spec fn operator_accepted(state: warg_protocol::operator::LogState) -> Seq<
    EnvelopeModel,
>;

/// Whether `LogState::validate` of `warg-protocol` accepts `envelope` after
/// the envelopes of `accepted`, in that order, and nothing else.
pub uninterp spec fn operator_accepts(accepted: Seq<EnvelopeModel>, envelope: EnvelopeModel) -> bool;

/// What the error holds that `LogState::validate` of `warg-protocol` gives
/// for `envelope` after the envelopes of `accepted`, where it does not accept
/// it.
pub uninterp spec fn operator_failure(
    accepted: Seq<EnvelopeModel>,
    envelope: EnvelopeModel,
) -> ReportModel;

/// What a `ValidationError` of `warg-protocol` holds: its variant, once as
/// a rule on the chain of records, the signature or the first entry and
/// once as a rule on keys and permissions, and its fields in text form.
pub uninterp spec fn operator_reported(
    error: warg_protocol::operator::ValidationError,
) -> ReportModel;

/// `LogState::new` of `warg-protocol`: a state that has accepted nothing.
#[verifier::external_body]
fn new_operator_state() -> (state: warg_protocol::operator::LogState)
    ensures
        operator_accepted(state) == Seq::<EnvelopeModel>::empty(),
{
    warg_protocol::operator::LogState::new()
}

/// `LogState::validate` of `warg-protocol` on a copy of the state: the copy
/// with the envelope accepted, or the validator's error, which depends on
/// the envelopes accepted so far and on this one alone. The state itself is
/// left as it was.
#[verifier::external_body]
fn validate_operator(state: &warg_protocol::operator::LogState, envelope: &Envelope) -> (r: Result<
    warg_protocol::operator::LogState,
    warg_protocol::operator::ValidationError,
>)
    requires
        is_signature_text(envelope.signature@),
        operator_decoding(envelope.content_bytes@) is Some,
    ensures
        r is Ok <==> operator_accepts(operator_accepted(*state), envelope@),
        r matches Ok(next) ==> operator_accepted(next) == operator_accepted(*state).push(envelope@),
        r matches Err(error) ==> operator_reported(error) == operator_failure(
            operator_accepted(*state),
            envelope@,
        ),
{
    let message = warg_protobuf::protocol::Envelope {
        contents: envelope.content_bytes.clone(),
        key_id: envelope.key_id.clone(),
        signature: envelope.signature.clone(),
    };
    let bytes = prost::Message::encode_to_vec(&message);
    let parsed = warg_protocol::ProtoEnvelope::from_protobuf(&bytes).unwrap();
    state.clone().validate(&parsed)
}

/// `LogState::head` of `warg-protocol`: the identifier of the last accepted
/// record, which is the digest of the operator record prefix followed by
/// that record's bytes; none before the first.
#[verifier::external_body]
fn operator_head(state: &warg_protocol::operator::LogState) -> (head: Option<String>)
    ensures
        head is Some <==> operator_accepted(*state).len() > 0,
        head matches Some(id) ==> id@ == record_digest_text(
            operator_record_prefix(),
            operator_accepted(*state).last().content_bytes,
        ),
{
    state.head().as_ref().map(|head| head.digest.to_string())
}

/// Tells apart the errors of `warg-protocol` on the chain of records, the
/// signature and the first entry; `Other` for the rest.
#[verifier::external_body]
fn chain_failure_kind(error: &warg_protocol::operator::ValidationError) -> (kind: FailureKind)
    ensures
        kind == operator_reported(*error).chain,
{
    match error {
        warg_protocol::operator::ValidationError::FirstEntryIsNotInit => FailureKind::FirstEntryIsNotInit,
        warg_protocol::operator::ValidationError::InitialRecordDoesNotInit => FailureKind::InitialRecordDoesNotInit,
        warg_protocol::operator::ValidationError::InitialEntryAfterBeginning => FailureKind::InitialEntryAfterBeginning,
        warg_protocol::operator::ValidationError::SignatureError(_) => FailureKind::SignatureInvalid,
        warg_protocol::operator::ValidationError::IncorrectHashAlgorithm { .. } => FailureKind::IncorrectHashAlgorithm,
        warg_protocol::operator::ValidationError::RecordHashDoesNotMatch => FailureKind::RecordHashDoesNotMatch,
        warg_protocol::operator::ValidationError::PreviousHashOnFirstRecord => FailureKind::PreviousHashOnFirstRecord,
        warg_protocol::operator::ValidationError::NoPreviousHashAfterInit => FailureKind::NoPreviousHashAfterInit,
        warg_protocol::operator::ValidationError::ProtocolVersionNotAllowed { .. } => FailureKind::ProtocolVersionNotAllowed,
        warg_protocol::operator::ValidationError::TimestampLowerThanPrevious => FailureKind::TimestampLowerThanPrevious,
        _ => FailureKind::Other,
    }
}

/// Tells apart the errors of `warg-protocol` on keys and permissions;
/// `Other` for the rest.
#[verifier::external_body]
fn entry_failure_kind(error: &warg_protocol::operator::ValidationError) -> (kind: FailureKind)
    ensures
        kind == operator_reported(*error).entry,
{
    match error {
        warg_protocol::operator::ValidationError::KeyIDNotRecognized { .. } => FailureKind::KeyIdNotRecognized,
        warg_protocol::operator::ValidationError::UnauthorizedAction { .. } => FailureKind::UnauthorizedAction,
        warg_protocol::operator::ValidationError::PermissionNotFoundToRevoke { .. } => FailureKind::PermissionNotFoundToRevoke,
        _ => FailureKind::Other,
    }
}

/// The texts that an error of `warg-protocol` carries: the key identifier
/// or the algorithm found, and the algorithm expected; empty where it
/// carries none.
#[verifier::external_body]
fn failure_texts(error: &warg_protocol::operator::ValidationError) -> (texts: (String, String))
    ensures
        texts.0@ == operator_reported(*error).subject,
        texts.1@ == operator_reported(*error).expected,
{
    match error {
        warg_protocol::operator::ValidationError::KeyIDNotRecognized { key_id }
        | warg_protocol::operator::ValidationError::UnauthorizedAction { key_id, .. }
        | warg_protocol::operator::ValidationError::PermissionNotFoundToRevoke { key_id, .. } => (key_id.to_string(), String::new()),
        warg_protocol::operator::ValidationError::IncorrectHashAlgorithm { found, expected } => (found.to_string(), expected.to_string()),
        _ => (String::new(), String::new()),
    }
}

/// The permission that an error of `warg-protocol` names, told by its text
/// form; `Other` where it names none.
#[verifier::external_body]
fn failure_permission(error: &warg_protocol::operator::ValidationError) -> (permission:
    RawPermission)
    ensures
        permission == operator_reported(*error).permission,
{
    match error {
        warg_protocol::operator::ValidationError::UnauthorizedAction { needed_permission: p, .. }
        | warg_protocol::operator::ValidationError::PermissionNotFoundToRevoke { permission: p, .. } => match p.to_string().as_str() {
            "commit" => RawPermission::Commit,
            _ => RawPermission::Other,
        },
        _ => RawPermission::Other,
    }
}

/// The protocol version that an error of `warg-protocol` names; 0 where it
/// names none.
#[verifier::external_body]
fn failure_protocol_version(error: &warg_protocol::operator::ValidationError) -> (version: u32)
    ensures
        version == operator_reported(*error).protocol_version,
{
    match error {
        warg_protocol::operator::ValidationError::ProtocolVersionNotAllowed { version } => *version,
        _ => 0,
    }
}

/// Puts what was read of an error of `warg-protocol` into one rejection.
///
/// Its rule is the one read on the chain of records, the signature or the
/// first entry, where one was read there, else the one read on keys and
/// permissions. The first text is its subject, the second the
/// algorithm that was expected; permission and protocol version are taken as
/// they were read.
fn read_failure(
    chain: FailureKind,
    entry: FailureKind,
    texts: (String, String),
    permission: RawPermission,
    protocol_version: u32,
) -> (raw: RawFailure)
    ensures
        raw.kind == reported_kind(chain, entry),
        raw.subject == texts.0,
        raw.expected == texts.1,
        raw.permission == permission,
        raw.protocol_version == protocol_version,
{
    let kind = match chain {
        FailureKind::Other => entry,
        _ => chain,
    };
    RawFailure { kind, subject: texts.0, expected: texts.1, permission, protocol_version }
}

/// The validated state of one operator log.
pub struct OperatorLog {
    state: warg_protocol::operator::LogState,
}

/// Whether `append_operator_record` accepts an envelope after those already
/// accepted: its signature is well formed, its content is a well-formed
/// record, and the validator accepts it.
pub open spec fn append_accepts(accepted: Seq<EnvelopeModel>, envelope: EnvelopeModel) -> bool {
    &&& is_signature_text(envelope.signature)
    &&& operator_decoding(envelope.content_bytes) is Some
    &&& operator_accepts(accepted, envelope)
}

impl OperatorLog {
    /// The envelopes accepted so far, oldest first.
    pub closed spec fn accepted(&self) -> Seq<EnvelopeModel> {
        operator_accepted(self.state)
    }

    /// A log that has accepted nothing.
    pub fn new() -> (log: Self)
        ensures
            log.accepted() == Seq::<EnvelopeModel>::empty(),
    {
        OperatorLog { state: new_operator_state() }
    }

    /// The identifier of the last accepted record; none before the first.
    pub fn head(&self) -> (head: Option<String>)
        ensures
            head is Some <==> self.accepted().len() > 0,
            head matches Some(id) ==> id@ == record_digest_text(
                operator_record_prefix(),
                self.accepted().last().content_bytes,
            ),
    {
        operator_head(&self.state)
    }

    /// Validates an envelope against the log and, if it is accepted, appends
    /// it and returns the identifier of its record, the new head.
    ///
    /// An envelope is accepted exactly when its signature is well formed,
    /// its content is a well-formed record and the validator accepts it
    /// after the envelopes accepted so far. A malformed signature is
    /// reported before malformed content, and both before any rejection.
    /// The error of a rejection is the one that stands for what the
    /// validator's error holds. Whatever the error, the log is left as it
    /// was.
    pub fn append_operator_record(&mut self, envelope: Envelope) -> (r: Result<
        String,
        OperatorValidationError,
    >)
        ensures
            r is Ok <==> append_accepts(old(self).accepted(), envelope@),
            r matches Ok(id) ==> final(self).accepted() == old(self).accepted().push(envelope@)
                && id@ == record_digest_text(operator_record_prefix(), envelope.content_bytes@),
            r is Err ==> final(self).accepted() == old(self).accepted(),
            r matches Err(e) ==> (e is SignatureParseFailure <==> !is_signature_text(
                envelope.signature@,
            )),
            r matches Err(e) ==> (e is FailedToDecodeOperatorRecord <==> is_signature_text(
                envelope.signature@,
            ) && operator_decoding(envelope.content_bytes@) is None),
            r matches Err(e) ==> (is_signature_text(envelope.signature@) && operator_decoding(
                envelope.content_bytes@,
            ) is Some ==> is_rejection_of(
                e,
                failure_of(operator_failure(old(self).accepted(), envelope@)),
            )),
    {
        if !signature_parses(envelope.signature.as_str()) {
            return Err(OperatorValidationError::SignatureParseFailure);
        }
        if decode_record_bytes(&envelope.content_bytes).is_none() {
            return Err(OperatorValidationError::FailedToDecodeOperatorRecord);
        }
        match validate_operator(&self.state, &envelope) {
            Ok(next) => match operator_head(&next) {
                Some(id) => {
                    self.state = next;
                    Ok(id)
                },
                None => Err(OperatorValidationError::UnexpectedValidationError),
            },
            Err(error) => {
                let raw = read_failure(
                    chain_failure_kind(&error),
                    entry_failure_kind(&error),
                    failure_texts(&error),
                    failure_permission(&error),
                    failure_protocol_version(&error),
                );
                Err(operator_rejection(raw))
            },
        }
    }
}

/// The identifier that `append_operator_record` returns for an accepted
/// envelope, which is the head of the log from then on, is the identifier
/// that `encode_operator_record` gave with the bytes that the envelope
/// carries.
pub proof fn lemma_head_is_encoded_id(
    encoded: EncodedOperatorRecord,
    record: RecordModel,
    envelope: EnvelopeModel,
    id: Seq<char>,
)
    requires
        is_encoding_of(encoded, record),
        envelope.content_bytes == encoded.content_bytes@,
        id == record_digest_text(operator_record_prefix(), envelope.content_bytes),
    ensures
        id == encoded.record_id@,
{
}

} // verus!
