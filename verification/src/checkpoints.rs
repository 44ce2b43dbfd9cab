//! The registry's joint commitment: an append-only Merkle log of leaves and a
//! verifiable map from each log to its latest record, filled together and
//! summed up in one checkpoint.

use vstd::prelude::*;
use crate::map_proofs::{
    insert_map_leaf, map_leaves, map_root, map_root_text, new_leaf_map, LeafMap,
};
use crate::text::{check_hash_text, hash_text_error, is_hash_text, is_sha256_text, HashErrno};

verus! {

/// The greatest number of leaves of a log. The nodes of a log with so many
/// leaves are numbered below 2^32, so that every node has a number on a
/// machine with words of 32 bits.
pub const MAX_LEAVES: u32 = 0x8000_0000;

/// One entry of the registry log: a record of a log.
#[derive(Clone, Debug, PartialEq, Eq)]
pub struct Leaf {
    pub log_id: String,
    pub record_id: String,
}

/// The mathematical value of a [`Leaf`].
pub ghost struct LeafModel {
    pub log_id: Seq<char>,
    pub record_id: Seq<char>,
}

impl View for Leaf {
    type V = LeafModel;

    open spec fn view(&self) -> LeafModel {
        LeafModel { log_id: self.log_id@, record_id: self.record_id@ }
    }
}

/// The models of the leaves of a vector, in order.
pub open spec fn leaf_models(leaves: Seq<Leaf>) -> Seq<LeafModel> {
    leaves.map_values(|leaf: Leaf| leaf@)
}

/// Both identifiers of the leaf are hash identifiers.
pub open spec fn is_leaf(leaf: LeafModel) -> bool {
    is_hash_text(leaf.log_id) && is_hash_text(leaf.record_id)
}

/// The commitment to the log and the map at one instant.
#[derive(Clone, Debug, PartialEq, Eq)]
pub struct Checkpoint {
    pub log_length: u32,
    pub log_root: String,
    pub map_root: String,
}

/// Which identifier of a leaf is malformed.
#[derive(Clone, Copy, Debug, PartialEq, Eq, Structural)]
pub enum AppendLeafErrno {
    InvalidLogId,
    InvalidRecordId,
}

/// Why a leaf is refused, if it is: the log identifier is looked at first.
pub open spec fn leaf_error(leaf: LeafModel) -> Option<AppendLeafErrno> {
    if !is_hash_text(leaf.log_id) {
        Some(AppendLeafErrno::InvalidLogId)
    } else if !is_hash_text(leaf.record_id) {
        Some(AppendLeafErrno::InvalidRecordId)
    } else {
        None
    }
}

/// Checks the two identifiers of a leaf, the log identifier first.
pub fn check_leaf(leaf: &Leaf) -> (r: Result<(), AppendLeafErrno>)
    ensures
        match leaf_error(leaf@) {
            Some(e) => r == Err::<(), AppendLeafErrno>(e),
            None => r is Ok,
        },
{
    if check_hash_text(leaf.log_id.as_str()).is_err() {
        return Err(AppendLeafErrno::InvalidLogId);
    }
    if check_hash_text(leaf.record_id.as_str()).is_err() {
        return Err(AppendLeafErrno::InvalidRecordId);
    }
    Ok(())
}

/// A `StackLog` of `warg-transparency` over SHA-256 and log leaves.
#[verifier::external_body]
pub struct LeafStack {
    inner: warg_transparency::log::StackLog<
        warg_crypto::hash::Sha256,
        warg_protocol::registry::LogLeaf,
    >,
}

/// The leaves pushed onto a stack log, oldest first.
pub uninterp spec fn stack_leaves(log: LeafStack) -> Seq<LeafModel>;

/// The root that a log of `warg-transparency` reports at its checkpoint
/// after these leaves were pushed, as a hash identifier. It stands for the
/// root of a `StackLog` and for that of a `VecLog`: both fold the hashes of
/// the balanced roots over the leaves in the same way, and the crate holds
/// the two equal in its own tests.
pub uninterp spec fn log_root_text(leaves: Seq<LeafModel>) -> Seq<char>;

/// `StackLog::default` of `warg-transparency`: a log without leaves.
#[verifier::external_body]
fn new_leaf_stack() -> (log: LeafStack)
    ensures
        stack_leaves(log) == Seq::<LeafModel>::empty(),
{
    LeafStack { inner: Default::default() }
}

/// `StackLog::push` of `warg-transparency`: the leaf becomes the last one.
#[verifier::external_body]
fn push_stack_leaf(log: &mut LeafStack, leaf: &Leaf)
    requires
        is_leaf(leaf@),
        stack_leaves(*old(log)).len() < MAX_LEAVES,
    ensures
        stack_leaves(*final(log)) == stack_leaves(*old(log)).push(leaf@),
{
    let log_id = leaf.log_id.parse::<warg_crypto::hash::AnyHash>().unwrap().into();
    let record_id = leaf.record_id.parse::<warg_crypto::hash::AnyHash>().unwrap().into();
    let leaf = warg_protocol::registry::LogLeaf { log_id, record_id };
    warg_transparency::log::LogBuilder::push(&mut log.inner, &leaf);
}

/// `StackLog::checkpoint` of `warg-transparency`: the root over the leaves
/// pushed so far, a hash identifier with a 32-byte digest, and their number.
#[verifier::external_body]
fn stack_checkpoint(log: &LeafStack) -> (r: (String, usize))
    ensures
        r.0@ == log_root_text(stack_leaves(*log)),
        is_sha256_text(r.0@),
        r.1 == stack_leaves(*log).len(),
{
    let checkpoint = warg_transparency::log::LogBuilder::checkpoint(&log.inner);
    (warg_crypto::hash::AnyHash::from(checkpoint.root()).to_string(), checkpoint.length())
}

/// The log and the map of one registry, filled together.
pub struct CheckpointService {
    log: LeafStack,
    map: LeafMap,
    length: u32,
}

/// The number of leading leaves of a batch that are well formed: the
/// position of the first malformed one, or the length of a batch without
/// one.
pub open spec fn leading_leaves(leafs: Seq<LeafModel>) -> int
    decreases leafs.len(),
{
    if leafs.len() == 0 {
        0
    } else {
        let before = leading_leaves(leafs.drop_last());
        if before == leafs.len() - 1 && is_leaf(leafs.last()) {
            before + 1
        } else {
            before
        }
    }
}

/// Every leaf of the batch is well formed.
pub open spec fn all_leaves(leafs: Seq<LeafModel>) -> bool {
    forall|i: int| 0 <= i < leafs.len() ==> is_leaf(#[trigger] leafs[i])
}

/// Why a batch is refused, if it is: the error of its first malformed leaf.
pub open spec fn batch_error(leafs: Seq<LeafModel>) -> Option<HashErrno> {
    if leading_leaves(leafs) == leafs.len() {
        None
    } else {
        leaf_hash_error(leafs[leading_leaves(leafs)])
    }
}

/// Why a hash identifier of a leaf is refused, if one is: the log identifier
/// is looked at first.
pub open spec fn leaf_hash_error(leaf: LeafModel) -> Option<HashErrno> {
    if !is_hash_text(leaf.log_id) {
        Some(hash_text_error(leaf.log_id))
    } else if !is_hash_text(leaf.record_id) {
        Some(hash_text_error(leaf.record_id))
    } else {
        None
    }
}

/// Checks the two identifiers of a leaf, the log identifier first, and tells
/// an unknown algorithm from a malformed text.
pub fn check_leaf_hashes(leaf: &Leaf) -> (r: Result<(), HashErrno>)
    ensures
        match leaf_hash_error(leaf@) {
            Some(e) => r == Err::<(), HashErrno>(e),
            None => r is Ok && is_leaf(leaf@),
        },
{
    match check_hash_text(leaf.log_id.as_str()) {
        Ok(()) => check_hash_text(leaf.record_id.as_str()),
        Err(e) => Err(e),
    }
}

/// Checks every leaf of a batch, in order.
///
/// Succeeds exactly where every leaf is well formed; the error is that of
/// the first malformed leaf.
pub fn check_leafs(leafs: &Vec<Leaf>) -> (r: Result<(), HashErrno>)
    ensures
        r is Ok <==> all_leaves(leaf_models(leafs@)),
        r matches Err(e) ==> batch_error(leaf_models(leafs@)) == Some(e),
        r is Ok ==> batch_error(leaf_models(leafs@)) is None,
{
    let ghost models = leaf_models(leafs@);
    let mut i: usize = 0;
    while i < leafs.len()
        invariant
            0 <= i <= leafs.len(),
            models == leaf_models(leafs@),
            leading_leaves(models.take(i as int)) == i,
            forall|j: int| 0 <= j < i ==> is_leaf(#[trigger] models[j]),
        decreases leafs.len() - i,
    {
        proof {
            assert(models.take(i + 1).drop_last() == models.take(i as int));
            assert(models.take(i + 1).last() == leafs@[i as int]@);
            assert(models[i as int] == leafs@[i as int]@);
        }
        match check_leaf_hashes(&leafs[i]) {
            Ok(()) => {},
            Err(e) => {
                proof {
                    assert(leading_leaves(models.take(i + 1)) == i);
                    lemma_leading_leaves_stay(models, i + 1);
                    assert(!is_leaf(models[i as int]));
                }
                return Err(e);
            },
        }
        i += 1;
    }
    proof {
        assert(models.take(i as int) == models);
    }
    Ok(())
}

impl CheckpointService {
    /// The leaves appended so far, oldest first.
    pub closed spec fn leaves(&self) -> Seq<LeafModel> {
        stack_leaves(self.log)
    }

    /// The log and the map hold the same leaves, and their number is the
    /// length that the registry keeps.
    pub closed spec fn wf(&self) -> bool {
        &&& map_leaves(self.map) == stack_leaves(self.log)
        &&& self.length == stack_leaves(self.log).len()
    }

    /// A registry without leaves.
    pub fn new() -> (registry: Self)
        ensures
            registry.wf(),
            registry.leaves() == Seq::<LeafModel>::empty(),
    {
        CheckpointService { log: new_leaf_stack(), map: new_leaf_map(), length: 0 }
    }

    /// The number of leaves appended so far.
    pub fn len(&self) -> (n: u32)
        requires
            self.wf(),
        ensures
            n == self.leaves().len(),
    {
        self.length
    }

    /// Appends a checked leaf to the log and the map as one step.
    fn commit(&mut self, leaf: &Leaf)
        requires
            old(self).wf(),
            old(self).leaves().len() < MAX_LEAVES,
            is_leaf(leaf@),
        ensures
            final(self).wf(),
            final(self).leaves() == old(self).leaves().push(leaf@),
    {
        insert_map_leaf(&mut self.map, leaf);
        push_stack_leaf(&mut self.log, leaf);
        self.length = self.length + 1;
    }

    /// Appends one leaf to the log and to the map.
    ///
    /// A leaf with a malformed identifier is refused and changes nothing;
    /// any other becomes the last leaf of both.
    pub fn append_leaf(&mut self, leaf: Leaf) -> (r: Result<(), AppendLeafErrno>)
        requires
            old(self).wf(),
            old(self).leaves().len() < MAX_LEAVES,
        ensures
            final(self).wf(),
            match leaf_error(leaf@) {
                Some(e) => r == Err::<(), AppendLeafErrno>(e) && final(self).leaves() == old(
                    self,
                ).leaves(),
                None => r is Ok && final(self).leaves() == old(self).leaves().push(leaf@),
            },
    {
        match check_leaf(&leaf) {
            Ok(()) => {
                self.commit(&leaf);
                Ok(())
            },
            Err(e) => Err(e),
        }
    }

    /// Appends the leaves of a batch in order, all of them or none.
    ///
    /// The whole batch is checked before any leaf is appended. Where every
    /// leaf is well formed, they all become leaves of the log and the map,
    /// in their order. Where one is malformed, nothing is changed, and the
    /// error is that of the first malformed leaf.
    pub fn append_leafs(&mut self, leafs: Vec<Leaf>) -> (r: Result<(), HashErrno>)
        requires
            old(self).wf(),
            old(self).leaves().len() + leafs.len() <= MAX_LEAVES,
        ensures
            final(self).wf(),
            r is Ok <==> all_leaves(leaf_models(leafs@)),
            r is Ok ==> final(self).leaves() == old(self).leaves() + leaf_models(leafs@),
            r is Err ==> final(self).leaves() == old(self).leaves(),
            r matches Err(e) ==> batch_error(leaf_models(leafs@)) == Some(e),
    {
        match check_leafs(&leafs) {
            Ok(()) => {},
            Err(e) => {
                return Err(e);
            },
        }
        let ghost models = leaf_models(leafs@);
        let mut i: usize = 0;
        proof {
            assert(old(self).leaves() + models.take(0) == old(self).leaves());
        }
        while i < leafs.len()
            invariant
                0 <= i <= leafs.len(),
                models == leaf_models(leafs@),
                all_leaves(models),
                self.wf(),
                old(self).leaves().len() + leafs.len() <= MAX_LEAVES,
                self.leaves() == old(self).leaves() + models.take(i as int),
            decreases leafs.len() - i,
        {
            proof {
                assert(models[i as int] == leafs@[i as int]@);
            }
            self.commit(&leafs[i]);
            proof {
                assert(models.take(i + 1) == models.take(i as int).push(leafs@[i as int]@));
                assert(old(self).leaves() + models.take(i + 1) == (old(self).leaves()
                    + models.take(i as int)).push(leafs@[i as int]@));
            }
            i += 1;
        }
        proof {
            assert(models.take(i as int) == models);
        }
        Ok(())
    }

    /// The commitment to the leaves appended so far: their number, the root
    /// of the log over them and the root of the map over them. Nothing is
    /// changed.
    pub fn compute_checkpoint(&self) -> (checkpoint: Checkpoint)
        requires
            self.wf(),
        ensures
            checkpoint.log_length == self.leaves().len(),
            checkpoint.log_root@ == log_root_text(self.leaves()),
            checkpoint.map_root@ == map_root_text(self.leaves()),
            is_sha256_text(checkpoint.log_root@),
            is_sha256_text(checkpoint.map_root@),
    {
        let (log_root, length) = stack_checkpoint(&self.log);
        Checkpoint { log_length: length as u32, log_root, map_root: map_root(&self.map) }
    }

    /// The same commitment as [`CheckpointService::compute_checkpoint`].
    pub fn create_checkpoint(&self) -> (checkpoint: Checkpoint)
        requires
            self.wf(),
        ensures
            checkpoint.log_length == self.leaves().len(),
            checkpoint.log_root@ == log_root_text(self.leaves()),
            checkpoint.map_root@ == map_root_text(self.leaves()),
            is_sha256_text(checkpoint.log_root@),
            is_sha256_text(checkpoint.map_root@),
    {
        self.compute_checkpoint()
    }
}

/// Once the leading leaves end before `n`, later leaves do not change their
/// number.
pub proof fn lemma_leading_leaves_stay(leafs: Seq<LeafModel>, n: int)
    requires
        0 < n <= leafs.len(),
        leading_leaves(leafs.take(n)) < n,
    ensures
        leading_leaves(leafs) == leading_leaves(leafs.take(n)),
    decreases leafs.len() - n,
{
    if n < leafs.len() {
        assert(leafs.take(n + 1).drop_last() == leafs.take(n));
        lemma_leading_leaves_stay(leafs, n + 1);
    } else {
        assert(leafs.take(n) == leafs);
    }
}

} // verus!
