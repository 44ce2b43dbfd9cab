//! What the registry tells about its ledger: where the leaves can be fetched
//! and how they are packed.

use vstd::prelude::*;

verus! {

/// How the records of a ledger source are laid out.
#[derive(Clone, Copy, Debug, PartialEq, Eq, Structural)]
pub enum LedgerSourceContentType {
    /// The two digests of each leaf, one leaf after the other.
    Packed,
}

/// One place from which a range of the ledger can be fetched.
#[derive(Clone, Debug, PartialEq, Eq)]
pub struct LedgerSource {
    pub first_registry_index: u32,
    pub last_registry_index: u32,
    pub url: String,
    pub accept_ranges: bool,
    pub content_type: LedgerSourceContentType,
}

/// The two digests of one leaf of the ledger.
#[derive(Clone, Debug, PartialEq, Eq)]
pub struct LeafDigests {
    pub log_id: Vec<u8>,
    pub record_id: Vec<u8>,
}

/// The configuration of the ledger interface: the service that it reads
/// the registry through.
#[derive(Clone)]
pub struct Config<S> {
    core_service: S,
}

impl<S> Config<S> {
    /// The service that the interface reads the registry through.
    pub closed spec fn service(&self) -> S {
        self.core_service
    }

    /// A configuration that reads the registry through `core_service`.
    pub fn new(core_service: S) -> (config: Self)
        ensures
            config.service() == core_service,
    {
        Self { core_service }
    }

    /// The service that the interface reads the registry through.
    pub fn core_service(&self) -> (service: &S)
        ensures
            *service == self.service(),
    {
        &self.core_service
    }
}

/// The path under which the records of the ledger are served.
pub open spec fn records_url() -> Seq<char> {
    "v1/ledger/records"@
}

/// The one source of a ledger of `log_length` leaves: all of them, from the
/// first to the last, packed, at the records path, without ranges.
pub fn ledger_source(log_length: u32) -> (source: LedgerSource)
    requires
        log_length > 0,
    ensures
        source.first_registry_index == 0,
        source.last_registry_index == log_length - 1,
        source.url@ == records_url(),
        !source.accept_ranges,
        source.content_type == LedgerSourceContentType::Packed,
{
    LedgerSource {
        first_registry_index: 0,
        last_registry_index: log_length - 1,
        url: "v1/ledger/records".to_owned(),
        accept_ranges: false,
        content_type: LedgerSourceContentType::Packed,
    }
}

/// The digests of the leaves one after the other: for each leaf the digest
/// of its log, then that of its record.
pub open spec fn packed(leaves: Seq<LeafDigests>) -> Seq<u8>
    decreases leaves.len(),
{
    if leaves.len() == 0 {
        Seq::empty()
    } else {
        packed(leaves.drop_last()) + leaves.last().log_id@ + leaves.last().record_id@
    }
}

/// Appends the bytes of `more` to `body`.
fn extend(body: &mut Vec<u8>, more: &Vec<u8>)
    ensures
        final(body)@ == old(body)@ + more@,
{
    let ghost before = body@;
    let mut i: usize = 0;
    while i < more.len()
        invariant
            0 <= i <= more.len(),
            body@ == before + more@.take(i as int),
        decreases more.len() - i,
    {
        proof {
            assert(more@.take(i + 1) == more@.take(i as int).push(more@[i as int]));
        }
        body.push(more[i]);
        i += 1;
    }
    proof {
        assert(more@.take(i as int) == more@);
    }
}

/// Packs the leaves of the ledger into the body of the records response.
pub fn pack_ledger_records(leaves: &Vec<LeafDigests>) -> (body: Vec<u8>)
    ensures
        body@ == packed(leaves@),
{
    let mut body: Vec<u8> = Vec::new();
    let mut i: usize = 0;
    while i < leaves.len()
        invariant
            0 <= i <= leaves.len(),
            body@ == packed(leaves@.take(i as int)),
        decreases leaves.len() - i,
    {
        proof {
            assert(leaves@.take(i + 1).drop_last() == leaves@.take(i as int));
            assert(leaves@.take(i + 1).last() == leaves@[i as int]);
        }
        extend(&mut body, &leaves[i].log_id);
        extend(&mut body, &leaves[i].record_id);
        i += 1;
    }
    proof {
        assert(leaves@.take(i as int) == leaves@);
    }
    body
}

/// The body of the records response holds both digests of every leaf.
pub proof fn lemma_packed_len(leaves: Seq<LeafDigests>, width: nat)
    requires
        forall|i: int|
            0 <= i < leaves.len() ==> (#[trigger] leaves[i]).log_id@.len() == width
                && leaves[i].record_id@.len() == width,
    ensures
        packed(leaves).len() == 2 * width * leaves.len(),
    decreases leaves.len(),
{
    if leaves.len() > 0 {
        lemma_packed_len(leaves.drop_last(), width);
        assert(leaves.last() == leaves[leaves.len() - 1]);
        assert(2 * width * (leaves.len() - 1) + width + width == 2 * width * leaves.len())
            by (nonlinear_arith);
    }
}

} // verus!
