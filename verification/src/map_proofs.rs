//! The verifiable map of the registry, from each log to its latest record,
//! with the evidence that it can give: bundles of inclusion proofs checked
//! against a map root.
//!
//! The map keeps its current state only. A request names the root that it
//! expects, and each of its leaves is checked against that root with the
//! path that the log has in the map as it is now: the latest record of a log
//! is proved against the current root, and an earlier root is matched only
//! as long as the path of the log has stayed the same.

use vstd::prelude::*;
use crate::checkpoints::{
    check_leaf, is_leaf, leaf_error, leaf_models, AppendLeafErrno, Leaf, LeafModel,
};
use crate::text::{check_hash_text, is_hash_text, is_sha256_text, sha256_digest_parses};

verus! {

/// A `Map` of `warg-transparency` over SHA-256, from log identifiers to map
/// leaves.
#[verifier::external_body]
pub struct LeafMap {
    inner: warg_transparency::map::Map<
        warg_crypto::hash::Sha256,
        warg_protocol::registry::LogId,
        warg_protocol::registry::MapLeaf,
    >,
}

/// The leaves inserted into a map, oldest first: each gives its log
/// identifier the record identifier that it carries.
pub uninterp spec fn map_leaves(map: LeafMap) -> Seq<LeafModel>;

/// The root that `Map::root` of `warg-transparency` reports after these
/// leaves were inserted, as a hash identifier.
pub uninterp spec fn map_root_text(leaves: Seq<LeafModel>) -> Seq<char>;

/// `Map::default` of `warg-transparency`: a map without leaves.
#[verifier::external_body]
pub(crate) fn new_leaf_map() -> (map: LeafMap)
    ensures
        map_leaves(map) == Seq::<LeafModel>::empty(),
{
    LeafMap { inner: Default::default() }
}

/// `Map::insert` of `warg-transparency`, with the new map put in place of
/// the old one: the leaf becomes the last one inserted.
#[verifier::external_body]
pub(crate) fn insert_map_leaf(map: &mut LeafMap, leaf: &Leaf)
    requires
        is_leaf(leaf@),
        map_leaves(*old(map)).len() < usize::MAX,
    ensures
        map_leaves(*final(map)) == map_leaves(*old(map)).push(leaf@),
{
    let log_id = leaf.log_id.parse::<warg_crypto::hash::AnyHash>().unwrap().into();
    let record_id = leaf.record_id.parse::<warg_crypto::hash::AnyHash>().unwrap().into();
    map.inner = map.inner.insert(log_id, warg_protocol::registry::MapLeaf { record_id });
}

/// `Map::root` of `warg-transparency`: the root over the leaves inserted
/// so far, a hash identifier with a 32-byte digest.
#[verifier::external_body]
pub(crate) fn map_root(map: &LeafMap) -> (root: String)
    ensures
        root@ == map_root_text(map_leaves(*map)),
        is_sha256_text(root@),
{
    warg_crypto::hash::AnyHash::from(map.inner.root()).to_string()
}

/// A `Proof` of `warg-transparency` for a map over SHA-256, from log
/// identifiers to map leaves: the sibling hashes on the way from one key to
/// the root.
#[verifier::external_body]
pub struct MapPath {
    inner: warg_transparency::map::Proof<
        warg_crypto::hash::Sha256,
        warg_protocol::registry::LogId,
        warg_protocol::registry::MapLeaf,
    >,
}

/// The sibling hashes that a path holds, from the leaf upwards.
pub uninterp spec fn path_peers(path: MapPath) -> Seq<Option<Seq<u8>>>;

/// The sibling hashes of the path that `Map::prove` of `warg-transparency`
/// gives for a log identifier, in a map into which these leaves were
/// inserted.
pub uninterp spec fn map_path(leaves: Seq<LeafModel>, log_id: Seq<char>) -> Seq<Option<Seq<u8>>>;

/// The root that `Proof::evaluate` of `warg-transparency` computes from
/// sibling hashes and a leaf, as a hash identifier.
pub uninterp spec fn path_root_text(peers: Seq<Option<Seq<u8>>>, leaf: LeafModel) -> Seq<char>;

/// The bytes that `MapProofBundle` of `warg-transparency` encodes paths
/// with these sibling hashes to.
pub uninterp spec fn map_bundle(paths: Seq<Seq<Option<Seq<u8>>>>) -> Seq<u8>;

/// Some leaf was inserted for the log.
pub open spec fn has_log(leaves: Seq<LeafModel>, log_id: Seq<char>) -> bool {
    exists|i: int| 0 <= i < leaves.len() && (#[trigger] leaves[i]).log_id == log_id
}

/// The record that the map holds for a log: that of the last leaf inserted
/// for it.
pub open spec fn latest_record(leaves: Seq<LeafModel>, log_id: Seq<char>) -> Seq<char>
    decreases leaves.len(),
{
    if leaves.len() == 0 {
        Seq::empty()
    } else if leaves.last().log_id == log_id {
        leaves.last().record_id
    } else {
        latest_record(leaves.drop_last(), log_id)
    }
}

/// The leaf is well formed and names the record that the map holds for
/// its log.
pub open spec fn is_current(leaves: Seq<LeafModel>, leaf: LeafModel) -> bool {
    &&& is_leaf(leaf)
    &&& has_log(leaves, leaf.log_id)
    &&& leaf.record_id == latest_record(leaves, leaf.log_id)
}

/// `Map::is_empty` of `warg-transparency`: whether nothing was inserted.
#[verifier::external_body]
fn map_is_empty(map: &LeafMap) -> (empty: bool)
    ensures
        empty == (map_leaves(*map).len() == 0),
{
    map.inner.is_empty()
}

/// `Map::prove` of `warg-transparency`: a path for a log identifier for
/// which a leaf was inserted, none for any other. The path evaluates to the
/// root of the map on the record that the map holds for the log.
#[verifier::external_body]
fn prove_log(map: &LeafMap, log_id: &str) -> (r: Option<MapPath>)
    requires
        is_hash_text(log_id@),
    ensures
        r is Some <==> has_log(map_leaves(*map), log_id@),
        r matches Some(path) ==> path_peers(path) == map_path(map_leaves(*map), log_id@),
        r matches Some(path) ==> path_root_text(
            path_peers(path),
            LeafModel { log_id: log_id@, record_id: latest_record(map_leaves(*map), log_id@) },
        ) == map_root_text(map_leaves(*map)),
{
    let log_id = log_id.parse::<warg_crypto::hash::AnyHash>().unwrap().into();
    map.inner.prove(log_id).map(|inner| MapPath { inner })
}

/// `Proof::evaluate` of `warg-transparency`: the root that a path gives for
/// a leaf, a hash identifier with a 32-byte digest.
#[verifier::external_body]
fn path_root(path: &MapPath, leaf: &Leaf) -> (root: String)
    requires
        is_leaf(leaf@),
    ensures
        root@ == path_root_text(path_peers(*path), leaf@),
        is_sha256_text(root@),
{
    let log_id = leaf.log_id.parse::<warg_crypto::hash::AnyHash>().unwrap().into();
    let record_id = leaf.record_id.parse::<warg_crypto::hash::AnyHash>().unwrap().into();
    let leaf = warg_protocol::registry::MapLeaf { record_id };
    warg_crypto::hash::AnyHash::from(path.inner.evaluate(&log_id, &leaf)).to_string()
}

/// `MapProofBundle::bundle` and `encode` of `warg-transparency`.
#[verifier::external_body]
fn bundle_paths(paths: Vec<MapPath>) -> (bytes: Vec<u8>)
    ensures
        bytes@ == map_bundle(peers_of(paths@)),
{
    let proofs = paths.into_iter().map(|path| path.inner).collect();
    warg_transparency::map::MapProofBundle::bundle(proofs).encode()
}

/// The sibling hashes of each path, in order.
pub open spec fn peers_of(paths: Seq<MapPath>) -> Seq<Seq<Option<Seq<u8>>>> {
    paths.map_values(|path: MapPath| path_peers(path))
}

/// The sibling hashes of the path of each leaf's log, in order.
pub open spec fn paths_for(leaves: Seq<LeafModel>, leafs: Seq<LeafModel>) -> Seq<
    Seq<Option<Seq<u8>>>,
> {
    leafs.map_values(|leaf: LeafModel| map_path(leaves, leaf.log_id))
}

/// Why no inclusion proof is given.
#[derive(Clone, Debug, PartialEq, Eq)]
pub enum ProofInclusionError {
    InvalidMapCheckpoint,
    MapEmpty,
    InvalidLogId(String),
    InvalidRecordId(String),
    LogIdNotFound(String),
    MapCheckpointDoesNotMatch,
}

/// What is wrong with one leaf of a request.
pub ghost enum LeafFault {
    InvalidLogId,
    InvalidRecordId,
    LogIdNotFound,
    CheckpointDoesNotMatch,
}

/// What is wrong with a leaf, if anything: its identifiers are looked at
/// first, then whether the map knows its log, then whether its path gives
/// the expected root.
pub open spec fn leaf_fault(leaves: Seq<LeafModel>, checkpoint: Seq<char>, leaf: LeafModel) -> Option<
    LeafFault,
> {
    if !is_hash_text(leaf.log_id) {
        Some(LeafFault::InvalidLogId)
    } else if !is_hash_text(leaf.record_id) {
        Some(LeafFault::InvalidRecordId)
    } else if !has_log(leaves, leaf.log_id) {
        Some(LeafFault::LogIdNotFound)
    } else if path_root_text(map_path(leaves, leaf.log_id), leaf) != checkpoint {
        Some(LeafFault::CheckpointDoesNotMatch)
    } else {
        None
    }
}

/// The position of the first leaf of a request with which something is
/// wrong; the number of leaves where nothing is wrong with any.
pub open spec fn first_faulty(leaves: Seq<LeafModel>, checkpoint: Seq<char>, leafs: Seq<LeafModel>) -> int
    decreases leafs.len(),
{
    if leafs.len() == 0 {
        0
    } else {
        let before = first_faulty(leaves, checkpoint, leafs.drop_last());
        if before == leafs.len() - 1 && leaf_fault(leaves, checkpoint, leafs.last()) is None {
            before + 1
        } else {
            before
        }
    }
}

/// `error` reports `fault` for `leaf`.
pub open spec fn reports(error: ProofInclusionError, fault: LeafFault, leaf: LeafModel) -> bool {
    match fault {
        LeafFault::InvalidLogId => error matches ProofInclusionError::InvalidLogId(id) && id@
            == leaf.log_id,
        LeafFault::InvalidRecordId => error matches ProofInclusionError::InvalidRecordId(id) && id@
            == leaf.record_id,
        LeafFault::LogIdNotFound => error matches ProofInclusionError::LogIdNotFound(id) && id@
            == leaf.log_id,
        LeafFault::CheckpointDoesNotMatch => error is MapCheckpointDoesNotMatch,
    }
}

impl MapPath {
    /// The sibling hashes that the path holds, from the leaf upwards.
    pub closed spec fn peers(&self) -> Seq<Option<Seq<u8>>> {
        path_peers(*self)
    }

    /// The root that results from the leaf under this path, for comparison
    /// with an expected root; a leaf with a malformed identifier is refused.
    pub fn evaluate(&self, leaf: &Leaf) -> (r: Result<String, AppendLeafErrno>)
        ensures
            match leaf_error(leaf@) {
                Some(e) => r == Err::<String, AppendLeafErrno>(e),
                None => r matches Ok(root) && root@ == path_root_text(self.peers(), leaf@)
                    && is_sha256_text(root@),
            },
    {
        match check_leaf(leaf) {
            Ok(()) => Ok(path_root(self, leaf)),
            Err(e) => Err(e),
        }
    }
}

/// The verifiable map of one registry.
pub struct VerifiableMap {
    map: LeafMap,
    inserted: usize,
}

impl VerifiableMap {
    /// The leaves appended so far, oldest first.
    pub closed spec fn leaves(&self) -> Seq<LeafModel> {
        map_leaves(self.map)
    }

    /// The count that the map keeps is the number of its leaves, and every
    /// leaf is well formed.
    pub closed spec fn wf(&self) -> bool {
        &&& self.inserted == map_leaves(self.map).len()
        &&& forall|i: int|
            0 <= i < map_leaves(self.map).len() ==> is_leaf(#[trigger] map_leaves(self.map)[i])
    }

    /// A map without leaves.
    pub fn new() -> (map: Self)
        ensures
            map.wf(),
            map.leaves() == Seq::<LeafModel>::empty(),
    {
        VerifiableMap { map: new_leaf_map(), inserted: 0 }
    }

    /// The number of leaves appended so far.
    pub fn len(&self) -> (n: usize)
        requires
            self.wf(),
        ensures
            n == self.leaves().len(),
    {
        self.inserted
    }

    /// The root of the map over the leaves appended so far.
    pub fn root(&self) -> (root: String)
        ensures
            root@ == map_root_text(self.leaves()),
            is_sha256_text(root@),
    {
        map_root(&self.map)
    }

    /// The path from a log to the root of the map; none for a log for which
    /// no leaf was appended. The path gives the root of the map for the
    /// record that the map holds for the log.
    pub fn prove(&self, log_id: &str) -> (r: Option<MapPath>)
        requires
            self.wf(),
        ensures
            r is Some <==> has_log(self.leaves(), log_id@),
            r matches Some(path) ==> path.peers() == map_path(self.leaves(), log_id@)
                && path_root_text(
                path.peers(),
                LeafModel { log_id: log_id@, record_id: latest_record(self.leaves(), log_id@) },
            ) == map_root_text(self.leaves()),
    {
        if check_hash_text(log_id).is_err() {
            proof {
                assert forall|i: int| 0 <= i < self.leaves().len() implies (
                #[trigger] self.leaves()[i]).log_id != log_id@ by {
                    assert(is_leaf(self.leaves()[i]));
                }
            }
            return None;
        }
        prove_log(&self.map, log_id)
    }

    /// Appends one leaf: from now on the map holds its record for its log.
    ///
    /// A leaf with a malformed identifier is refused and changes nothing.
    pub fn append_leaf(&mut self, leaf: Leaf) -> (r: Result<(), AppendLeafErrno>)
        requires
            old(self).wf(),
            old(self).leaves().len() < usize::MAX,
        ensures
            final(self).wf(),
            match leaf_error(leaf@) {
                Some(e) => r == Err::<(), AppendLeafErrno>(e) && final(self).leaves() == old(
                    self,
                ).leaves(),
                None => r is Ok && final(self).leaves() == old(self).leaves().push(leaf@),
            },
    {
        match check_leaf(&leaf) {
            Ok(()) => {
                insert_map_leaf(&mut self.map, &leaf);
                self.inserted = self.inserted + 1;
                Ok(())
            },
            Err(e) => Err(e),
        }
    }

    /// The encoded bundle of the inclusion proofs of the given leaves, each
    /// checked against the expected map root.
    ///
    /// Fails with `InvalidMapCheckpoint` where the expected root is not a
    /// hash identifier with a 32-byte digest, else with `MapEmpty` where
    /// the map has no leaves, else with what is wrong with the first leaf
    /// with which something is wrong. Where the expected root is the root of
    /// the map and every leaf names the record that the map holds for its
    /// log, the bundle is given.
    pub fn prove_map_inclusion(&self, map_checkpoint: String, leafs: Vec<Leaf>) -> (r: Result<
        Vec<u8>,
        ProofInclusionError,
    >)
        ensures
            !is_sha256_text(map_checkpoint@) ==> (r matches Err(e) && e is InvalidMapCheckpoint),
            is_sha256_text(map_checkpoint@) && self.leaves().len() == 0 ==> (r matches Err(e) && e
                is MapEmpty),
            is_sha256_text(map_checkpoint@) && self.leaves().len() > 0 ==> ({
                let models = leaf_models(leafs@);
                let k = first_faulty(self.leaves(), map_checkpoint@, models);
                &&& 0 <= k <= models.len()
                &&& k == models.len() ==> (r matches Ok(bytes) && bytes@ == map_bundle(
                    paths_for(self.leaves(), models),
                ))
                &&& k < models.len() ==> (r matches Err(e) && leaf_fault(
                    self.leaves(),
                    map_checkpoint@,
                    models[k],
                ) matches Some(fault) && reports(e, fault, models[k]))
            }),
            is_sha256_text(map_checkpoint@) && self.leaves().len() > 0 && map_checkpoint@
                == map_root_text(self.leaves()) && (forall|i: int|
                0 <= i < leafs@.len() ==> is_current(self.leaves(), (#[trigger] leafs@[i])@)) ==> r
                is Ok,
    {
        if !sha256_digest_parses(map_checkpoint.as_str()) {
            return Err(ProofInclusionError::InvalidMapCheckpoint);
        }
        if map_is_empty(&self.map) {
            return Err(ProofInclusionError::MapEmpty);
        }
        let ghost leaves = self.leaves();
        let ghost models = leaf_models(leafs@);
        let mut proofs: Vec<MapPath> = Vec::with_capacity(leafs.len());
        let mut i: usize = 0;
        while i < leafs.len()
            invariant
                0 <= i <= leafs.len(),
                leaves == map_leaves(self.map),
                leaves == self.leaves(),
                leaves.len() > 0,
                is_sha256_text(map_checkpoint@),
                models == leaf_models(leafs@),
                first_faulty(leaves, map_checkpoint@, models.take(i as int)) == i,
                peers_of(proofs@) == paths_for(leaves, models.take(i as int)),
            decreases leafs.len() - i,
        {
            let leaf = &leafs[i];
            proof {
                assert(models.take(i + 1).drop_last() == models.take(i as int));
                assert(models.take(i + 1).last() == leaf@);
                assert(models[i as int] == leaf@);
            }
            let fault = if check_hash_text(leaf.log_id.as_str()).is_err() {
                Some(ProofInclusionError::InvalidLogId(leaf.log_id.clone()))
            } else if check_hash_text(leaf.record_id.as_str()).is_err() {
                Some(ProofInclusionError::InvalidRecordId(leaf.record_id.clone()))
            } else {
                match prove_log(&self.map, leaf.log_id.as_str()) {
                    None => Some(ProofInclusionError::LogIdNotFound(leaf.log_id.clone())),
                    Some(proof) => {
                        let found_root = path_root(&proof, leaf);
                        if found_root == map_checkpoint {
                            proof {
                                assert(peers_of(proofs@.push(proof)) == peers_of(proofs@).push(
                                    path_peers(proof),
                                ));
                                assert(paths_for(leaves, models.take(i + 1)) == paths_for(
                                    leaves,
                                    models.take(i as int),
                                ).push(map_path(leaves, leaf@.log_id)));
                            }
                            proofs.push(proof);
                            None
                        } else {
                            Some(ProofInclusionError::MapCheckpointDoesNotMatch)
                        }
                    },
                }
            };
            if let Some(error) = fault {
                proof {
                    assert(first_faulty(leaves, map_checkpoint@, models.take(i + 1)) == i);
                    lemma_first_faulty_stays(leaves, map_checkpoint@, models, i + 1);
                }
                return Err(error);
            }
            i += 1;
        }
        proof {
            assert(models.take(i as int) == models);
        }
        Ok(bundle_paths(proofs))
    }
}

/// Once the first faulty leaf stands before `n`, later leaves do not change
/// which one it is.
pub proof fn lemma_first_faulty_stays(
    leaves: Seq<LeafModel>,
    checkpoint: Seq<char>,
    leafs: Seq<LeafModel>,
    n: int,
)
    requires
        0 < n <= leafs.len(),
        first_faulty(leaves, checkpoint, leafs.take(n)) < n,
    ensures
        first_faulty(leaves, checkpoint, leafs) == first_faulty(leaves, checkpoint, leafs.take(n)),
    decreases leafs.len() - n,
{
    if n < leafs.len() {
        assert(leafs.take(n + 1).drop_last() == leafs.take(n));
        lemma_first_faulty_stays(leaves, checkpoint, leafs, n + 1);
    } else {
        assert(leafs.take(n) == leafs);
    }
}

/// Last write wins: after a leaf is inserted, the map holds its record for
/// its log, and for every other log what it held before.
pub proof fn lemma_insert_overwrites(leaves: Seq<LeafModel>, leaf: LeafModel, log_id: Seq<char>)
    ensures
        latest_record(leaves.push(leaf), leaf.log_id) == leaf.record_id,
        has_log(leaves.push(leaf), leaf.log_id),
        log_id != leaf.log_id ==> latest_record(leaves.push(leaf), log_id) == latest_record(
            leaves,
            log_id,
        ),
        log_id != leaf.log_id ==> (has_log(leaves.push(leaf), log_id) <==> has_log(leaves, log_id)),
{
    let after = leaves.push(leaf);
    assert(after.last() == leaf);
    assert(after.drop_last() == leaves);
    assert(after[leaves.len() as int].log_id == leaf.log_id);
    if log_id != leaf.log_id {
        if has_log(leaves, log_id) {
            let i = choose|i: int| 0 <= i < leaves.len() && (#[trigger] leaves[i]).log_id == log_id;
            assert(after[i].log_id == log_id);
        }
        if has_log(after, log_id) {
            let i = choose|i: int| 0 <= i < after.len() && (#[trigger] after[i]).log_id == log_id;
            assert(i < leaves.len());
            assert(leaves[i].log_id == log_id);
        }
    }
}

/// After two leaves for one log are inserted one after the other, the leaf
/// inserted last is current, and the one before it is current only if it
/// names the same record.
pub proof fn lemma_second_insert_is_current(leaves: Seq<LeafModel>, first: LeafModel, second: LeafModel)
    requires
        is_leaf(first),
        is_leaf(second),
        first.log_id == second.log_id,
    ensures
        is_current(leaves.push(first).push(second), second),
        is_current(leaves.push(first).push(second), first) <==> first.record_id
            == second.record_id,
{
    lemma_insert_overwrites(leaves.push(first), second, second.log_id);
}

} // verus!
