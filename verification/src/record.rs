//! What operator and package records have in common: timestamps, signed
//! envelopes, the plain form of an entry, and record identifiers.

use vstd::prelude::*;
use crate::text::{is_canonical_key, is_sha256_text, shown_public_key};

verus! {

// ---------------------------------------------------------------------------
// Time
// ---------------------------------------------------------------------------

/// A point in time, as seconds and nanoseconds since the Unix epoch.
#[derive(Clone, Copy, Debug, PartialEq, Eq, Structural)]
pub struct Timestamp {
    pub seconds: i64,
    pub nanos: i32,
}

/// A timestamp at or after the epoch, with less than a second of nanoseconds.
pub open spec fn timestamp_in_range(t: Timestamp) -> bool {
    0 <= t.seconds && 0 <= t.nanos < 1_000_000_000
}

/// The seconds of a timestamp with the whole seconds of its nanoseconds
/// carried over.
pub open spec fn carried_seconds(t: Timestamp) -> int {
    t.seconds + t.nanos / 1_000_000_000
}

/// A timestamp that stands for a time: neither its seconds nor its
/// nanoseconds are negative, and its seconds do not overflow once the
/// surplus nanoseconds are carried over.
pub open spec fn timestamp_representable(t: Timestamp) -> bool {
    0 <= t.seconds && 0 <= t.nanos && carried_seconds(t) <= i64::MAX
}

/// The timestamp with the whole seconds of its nanoseconds carried over:
/// the same time, with less than a second of nanoseconds.
pub open spec fn normalized(t: Timestamp) -> Timestamp {
    Timestamp { seconds: carried_seconds(t) as i64, nanos: (t.nanos % 1_000_000_000) as i32 }
}

impl Timestamp {
    /// Whether the timestamp is at or after the epoch, with less than a
    /// second of nanoseconds.
    pub fn in_range(&self) -> (ok: bool)
        ensures
            ok == timestamp_in_range(*self),
    {
        0 <= self.seconds && 0 <= self.nanos && self.nanos < 1_000_000_000
    }

    /// Whether the timestamp stands for a time.
    pub fn is_representable(&self) -> (ok: bool)
        ensures
            ok == timestamp_representable(*self),
    {
        if self.seconds < 0 || self.nanos < 0 {
            return false;
        }
        let carry: i64 = (self.nanos / 1_000_000_000) as i64;
        self.seconds <= i64::MAX - carry
    }

    /// The same time with less than a second of nanoseconds.
    pub fn normalize(&self) -> (t: Timestamp)
        requires
            timestamp_representable(*self),
        ensures
            t == normalized(*self),
            timestamp_in_range(t),
            timestamp_in_range(*self) ==> t == *self,
    {
        let carry: i64 = (self.nanos / 1_000_000_000) as i64;
        Timestamp { seconds: self.seconds + carry, nanos: self.nanos % 1_000_000_000 }
    }
}

/// A timestamp with less than a second of nanoseconds is normalized already.
pub proof fn lemma_normalized_in_range(t: Timestamp)
    requires
        timestamp_in_range(t),
    ensures
        normalized(t) == t,
        timestamp_representable(t),
{
}

// ---------------------------------------------------------------------------
// Envelopes and record identifiers
// ---------------------------------------------------------------------------

/// A signed, canonically encoded record with its signer's key identifier.
#[derive(Clone, Debug, PartialEq, Eq)]
pub struct Envelope {
    pub content_bytes: Vec<u8>,
    pub key_id: String,
    pub signature: String,
}

/// The mathematical value of an [`Envelope`].
pub ghost struct EnvelopeModel {
    pub content_bytes: Seq<u8>,
    pub key_id: Seq<char>,
    pub signature: Seq<char>,
}

impl View for Envelope {
    type V = EnvelopeModel;

    open spec fn view(&self) -> EnvelopeModel {
        EnvelopeModel {
            content_bytes: self.content_bytes@,
            key_id: self.key_id@,
            signature: self.signature@,
        }
    }
}

/// The hash identifier that `warg-crypto` computes with SHA-256 over the
/// bytes of `prefix` followed by `content`.
pub uninterp spec fn record_digest_text(prefix: Seq<char>, content: Seq<u8>) -> Seq<char>;

/// `Hash::<Sha256>::of` of `warg-crypto` on a prefix and a content, shown as
/// text by `AnyHash`: a hash identifier with a 32-byte digest.
#[verifier::external_body]
pub(crate) fn digest_text(prefix: &str, content: &Vec<u8>) -> (id: String)
    ensures
        id@ == record_digest_text(prefix@, content@),
        is_sha256_text(id@),
{
    let hash = warg_crypto::hash::Hash::<warg_crypto::hash::Sha256>::of(
        (prefix.as_bytes(), content.as_slice()),
    );
    warg_crypto::hash::AnyHash::from(hash).to_string()
}

/// The bytes of a text of ASCII characters.
pub open spec fn ascii_bytes(text: Seq<char>) -> Seq<u8> {
    Seq::new(text.len(), |i: int| text[i] as u8)
}

// ---------------------------------------------------------------------------
// Records in plain values
// ---------------------------------------------------------------------------

/// A permission as a record carries it, whichever log it belongs to.
/// `Other` stands for one that this library does not know.
#[derive(Clone, Copy, Debug, PartialEq, Eq, Structural)]
pub enum RawPermission {
    Commit,
    Release,
    Yank,
    Other,
}

/// An entry as a record carries it, with every field in its text form.
/// `Other` stands for a kind of entry that this library does not know.
#[derive(Clone, Debug, PartialEq, Eq)]
pub enum RawEntry {
    Init { hash_algorithm: String, key: String },
    GrantFlat { key: String, permissions: Vec<RawPermission> },
    RevokeFlat { key_id: String, permissions: Vec<RawPermission> },
    Release { version: String, content: String },
    Yank { version: String },
    Other,
}

/// The mathematical value of an entry.
pub ghost enum EntryModel {
    Init { hash_algorithm: Seq<char>, key: Seq<char> },
    GrantFlat { key: Seq<char>, permissions: Seq<RawPermission> },
    RevokeFlat { key_id: Seq<char>, permissions: Seq<RawPermission> },
    Release { version: Seq<char>, content: Seq<char> },
    Yank { version: Seq<char> },
    Other,
}

impl View for RawEntry {
    type V = EntryModel;

    open spec fn view(&self) -> EntryModel {
        match *self {
            RawEntry::Init { hash_algorithm, key } => EntryModel::Init {
                hash_algorithm: hash_algorithm@,
                key: key@,
            },
            RawEntry::GrantFlat { key, permissions } => EntryModel::GrantFlat {
                key: key@,
                permissions: permissions@,
            },
            RawEntry::RevokeFlat { key_id, permissions } => EntryModel::RevokeFlat {
                key_id: key_id@,
                permissions: permissions@,
            },
            RawEntry::Release { version, content } => EntryModel::Release {
                version: version@,
                content: content@,
            },
            RawEntry::Yank { version } => EntryModel::Yank { version: version@ },
            RawEntry::Other => EntryModel::Other,
        }
    }
}

/// The permissions that an entry grants or revokes; none for the other kinds.
pub open spec fn permissions_of(entry: EntryModel) -> Seq<RawPermission> {
    match entry {
        EntryModel::GrantFlat { permissions, .. } => permissions,
        EntryModel::RevokeFlat { permissions, .. } => permissions,
        _ => Seq::empty(),
    }
}

/// The entry without the permissions that it grants or revokes.
pub open spec fn without_permissions(entry: EntryModel) -> EntryModel {
    match entry {
        EntryModel::GrantFlat { key, .. } => EntryModel::GrantFlat { key, permissions: Seq::empty() },
        EntryModel::RevokeFlat { key_id, .. } => EntryModel::RevokeFlat {
            key_id,
            permissions: Seq::empty(),
        },
        other => other,
    }
}

/// What a record says besides its entries. `time` is `None` where the
/// record's time lies before the epoch, or so far after it that its seconds
/// have no signed number of 64 bits.
pub ghost struct RecordHeader {
    pub prev: Option<Seq<char>>,
    pub version: u32,
    pub time: Option<Timestamp>,
}

/// The mathematical value of a record.
pub ghost struct RecordModel {
    pub header: RecordHeader,
    pub entries: Seq<EntryModel>,
}

/// A record's header in plain values.
#[derive(Clone, Debug, PartialEq, Eq)]
pub struct RawHeader {
    pub prev: Option<String>,
    pub version: u32,
    pub time: Option<Timestamp>,
}

/// The characters of an optional text.
pub open spec fn text_of(text: Option<String>) -> Option<Seq<char>> {
    match text {
        Some(t) => Some(t@),
        None => None,
    }
}

impl View for RawHeader {
    type V = RecordHeader;

    open spec fn view(&self) -> RecordHeader {
        RecordHeader { prev: text_of(self.prev), version: self.version, time: self.time }
    }
}

/// A record in plain values, as it comes out of its encoded form.
#[derive(Clone, Debug, PartialEq, Eq)]
pub struct RawRecord {
    pub header: RawHeader,
    pub entries: Vec<RawEntry>,
}

/// The models of the entries of a vector, in order.
pub open spec fn entry_models(entries: Seq<RawEntry>) -> Seq<EntryModel> {
    entries.map_values(|e: RawEntry| e@)
}

impl View for RawRecord {
    type V = RecordModel;

    open spec fn view(&self) -> RecordModel {
        RecordModel { header: self.header@, entries: entry_models(self.entries@) }
    }
}

/// The entry with its public key in canonical text.
pub open spec fn canonical_entry(entry: EntryModel) -> EntryModel {
    match entry {
        EntryModel::Init { hash_algorithm, key } => EntryModel::Init {
            hash_algorithm,
            key: shown_public_key(key),
        },
        EntryModel::GrantFlat { key, permissions } => EntryModel::GrantFlat {
            key: shown_public_key(key),
            permissions,
        },
        other => other,
    }
}

/// The header with its time normalized.
pub open spec fn canonical_header(header: RecordHeader) -> RecordHeader {
    RecordHeader {
        prev: header.prev,
        version: header.version,
        time: match header.time {
            Some(t) => Some(normalized(t)),
            None => None,
        },
    }
}

/// The record in canonical form: its time normalized, and the public key of
/// every entry in canonical text.
pub open spec fn canonical_record(record: RecordModel) -> RecordModel {
    RecordModel {
        header: canonical_header(record.header),
        entries: record.entries.map_values(|e: EntryModel| canonical_entry(e)),
    }
}

/// Every public key of the entry is in canonical text.
pub open spec fn is_canonical_entry(entry: EntryModel) -> bool {
    match entry {
        EntryModel::Init { key, .. } => is_canonical_key(key),
        EntryModel::GrantFlat { key, .. } => is_canonical_key(key),
        _ => true,
    }
}

/// The record is in canonical form: its time, if it has one, has less than
/// a second of nanoseconds, and every public key is in canonical text.
pub open spec fn is_canonical_record(record: RecordModel) -> bool {
    &&& record.header.time matches Some(t) ==> timestamp_in_range(t)
    &&& forall|i: int|
        0 <= i < record.entries.len() ==> is_canonical_entry(#[trigger] record.entries[i])
}

/// A record in canonical form is its own canonical form.
pub proof fn lemma_canonical_record_is_itself(record: RecordModel)
    requires
        is_canonical_record(record),
    ensures
        canonical_record(record) == record,
{
    assert(canonical_record(record).entries =~= record.entries);
}

// ---------------------------------------------------------------------------
// Rejections in plain values
// ---------------------------------------------------------------------------

/// The two hash algorithms of a record whose previous-record hash uses
/// another algorithm than the log.
#[derive(Clone, Debug, PartialEq, Eq)]
pub struct UnexpectedHashAlgorithm {
    pub found: String,
    pub expected: String,
}

/// The rule that a rejected record broke.
#[derive(Clone, Copy, Debug, PartialEq, Eq, Structural)]
pub enum FailureKind {
    FirstEntryIsNotInit,
    InitialRecordDoesNotInit,
    KeyIdNotRecognized,
    InitialEntryAfterBeginning,
    UnauthorizedAction,
    PermissionNotFoundToRevoke,
    ReleaseOfReleased,
    YankOfUnreleased,
    YankOfYanked,
    SignatureInvalid,
    IncorrectHashAlgorithm,
    RecordHashDoesNotMatch,
    PreviousHashOnFirstRecord,
    NoPreviousHashAfterInit,
    ProtocolVersionNotAllowed,
    TimestampLowerThanPrevious,
    /// A rule that this library does not know.
    Other,
}

/// The rule that a rejection reports, of the two that were read from it:
/// the rule on the chain of records, the signature or the first entry where
/// one was read, else the rule on keys, permissions and versions.
pub open spec fn reported_kind(chain: FailureKind, entry: FailureKind) -> FailureKind {
    if chain is Other {
        entry
    } else {
        chain
    }
}

/// What a validator's error holds, as it is read from it: the rule on the
/// chain of records, the signature or the first entry, if it is one of
/// those, and the rule on keys, permissions and versions, if it is one of
/// those (`Other` for the rule that it is not); the key identifier, version
/// or algorithm found that it carries; the algorithm expected; the
/// permission; the protocol version.
pub ghost struct ReportModel {
    pub chain: FailureKind,
    pub entry: FailureKind,
    pub subject: Seq<char>,
    pub expected: Seq<char>,
    pub permission: RawPermission,
    pub protocol_version: u32,
}

/// The mathematical value of a [`RawFailure`].
pub ghost struct FailureModel {
    pub kind: FailureKind,
    pub subject: Seq<char>,
    pub expected: Seq<char>,
    pub permission: RawPermission,
    pub protocol_version: u32,
}

/// The rejection that a validator's error stands for.
pub open spec fn failure_of(report: ReportModel) -> FailureModel {
    FailureModel {
        kind: reported_kind(report.chain, report.entry),
        subject: report.subject,
        expected: report.expected,
        permission: report.permission,
        protocol_version: report.protocol_version,
    }
}

/// A rejection in plain values: the rule that was broken and what the
/// validator reported with it. `subject` is the key identifier, the version or
/// the hash algorithm found, whichever the rule speaks of; `expected` is the
/// hash algorithm of the log.
#[derive(Clone, Debug, PartialEq, Eq)]
pub struct RawFailure {
    pub kind: FailureKind,
    pub subject: String,
    pub expected: String,
    pub permission: RawPermission,
    pub protocol_version: u32,
}

impl View for RawFailure {
    type V = FailureModel;

    open spec fn view(&self) -> FailureModel {
        FailureModel {
            kind: self.kind,
            subject: self.subject@,
            expected: self.expected@,
            permission: self.permission,
            protocol_version: self.protocol_version,
        }
    }
}

} // verus!
