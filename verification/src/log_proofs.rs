//! The Merkle log of the registry with the evidence that it can give:
//! bundles of consistency proofs and of inclusion proofs, and the roots that
//! those proofs lead to.

use vstd::prelude::*;
use crate::checkpoints::{
    check_leaf, is_leaf, leaf_error, log_root_text, AppendLeafErrno, Leaf, LeafModel, MAX_LEAVES,
};
use crate::record::text_of;
use crate::text::is_sha256_text;

verus! {

/// A `VecLog` of `warg-transparency` over SHA-256 and log leaves.
#[verifier::external_body]
pub struct LeafTree {
    inner: warg_transparency::log::VecLog<
        warg_crypto::hash::Sha256,
        warg_protocol::registry::LogLeaf,
    >,
}

/// The leaves pushed onto a log, oldest first.
pub uninterp spec fn tree_leaves(log: LeafTree) -> Seq<LeafModel>;

/// The bytes of the bundle that `warg-transparency` makes of the
/// consistency proof between two lengths of a log with these leaves.
pub uninterp spec fn consistency_bundle(leaves: Seq<LeafModel>, start: u32, end: u32) -> Seq<u8>;

/// The bytes of the bundle that `warg-transparency` makes of the inclusion
/// proofs of the given nodes at one length of a log with these leaves.
pub uninterp spec fn inclusion_bundle(leaves: Seq<LeafModel>, log_length: u32, nodes: Seq<u64>) -> Seq<
    u8,
>;

/// The root that `warg-transparency` computes when it evaluates, over a log
/// with these leaves, the inclusion proof of a node at a length of the log
/// for a leaf.
pub uninterp spec fn inclusion_root(
    leaves: Seq<LeafModel>,
    node: u64,
    log_length: u32,
    leaf: LeafModel,
) -> Seq<char>;

/// The node of a log that holds the leaf at a position: leaves stand at the
/// even nodes, in order.
pub open spec fn leaf_node(index: int) -> int {
    2 * index
}

/// The nodes of the leaves at the given positions, in order.
pub open spec fn leaf_nodes(indices: Seq<u32>) -> Seq<u64> {
    Seq::new(indices.len(), |i: int| leaf_node(indices[i] as int) as u64)
}

/// The root of a log at an earlier length: that over the leaves that it
/// held then.
pub open spec fn root_at(leaves: Seq<LeafModel>, length: u32) -> Seq<char> {
    log_root_text(leaves.take(length as int))
}

/// The length is one that a log with these leaves has reached, and each of
/// the nodes holds a leaf of the log at that length.
pub open spec fn nodes_within(leaves: Seq<LeafModel>, log_length: u32, nodes: Seq<u64>) -> bool {
    &&& log_length <= leaves.len() <= MAX_LEAVES
    &&& forall|k: int|
        0 <= k < nodes.len() ==> (#[trigger] nodes[k]) % 2 == 0 && nodes[k] / 2 < log_length
}

/// Both lengths are lengths that a log with these leaves has reached, the
/// first not after the second, and at the first it was not empty.
pub open spec fn lengths_within(leaves: Seq<LeafModel>, start: u32, end: u32) -> bool {
    0 < start <= end <= leaves.len() <= MAX_LEAVES
}

/// The characters of two optional texts.
pub open spec fn texts_of(texts: Option<(String, String)>) -> Option<(Seq<char>, Seq<char>)> {
    match texts {
        Some(pair) => Some((pair.0@, pair.1@)),
        None => None,
    }
}

/// The bytes of an optional vector.
pub open spec fn bytes_of(bytes: Option<Vec<u8>>) -> Option<Seq<u8>> {
    match bytes {
        Some(b) => Some(b@),
        None => None,
    }
}

/// `VecLog::default` of `warg-transparency`: a log without leaves.
#[verifier::external_body]
fn new_leaf_tree() -> (log: LeafTree)
    ensures
        tree_leaves(log) == Seq::<LeafModel>::empty(),
{
    LeafTree { inner: Default::default() }
}

/// `VecLog::length` of `warg-transparency`: the number of leaves.
#[verifier::external_body]
fn tree_length(log: &LeafTree) -> (n: usize)
    ensures
        n == tree_leaves(*log).len(),
{
    log.inner.length()
}

/// `VecLog::checkpoint` of `warg-transparency`: the root over the leaves
/// pushed so far, which is the root that a `StackLog` reports for the same
/// leaves, and their number.
#[verifier::external_body]
fn tree_checkpoint(log: &LeafTree) -> (r: (String, usize))
    ensures
        r.0@ == log_root_text(tree_leaves(*log)),
        is_sha256_text(r.0@),
        r.1 == tree_leaves(*log).len(),
{
    let checkpoint = warg_transparency::log::LogBuilder::checkpoint(&log.inner);
    (warg_crypto::hash::AnyHash::from(checkpoint.root()).to_string(), checkpoint.length())
}

/// `VecLog::push` of `warg-transparency`: the leaf becomes the last one, and
/// the node that holds it is returned.
#[verifier::external_body]
fn push_tree_leaf(log: &mut LeafTree, leaf: &Leaf) -> (node: usize)
    requires
        is_leaf(leaf@),
        tree_leaves(*old(log)).len() < MAX_LEAVES,
    ensures
        tree_leaves(*final(log)) == tree_leaves(*old(log)).push(leaf@),
        node == leaf_node(tree_leaves(*old(log)).len() as int),
{
    let log_id = leaf.log_id.parse::<warg_crypto::hash::AnyHash>().unwrap().into();
    let record_id = leaf.record_id.parse::<warg_crypto::hash::AnyHash>().unwrap().into();
    let leaf = warg_protocol::registry::LogLeaf { log_id, record_id };
    warg_transparency::log::LogBuilder::push(&mut log.inner, &leaf).0
}

/// `LogData::prove_consistency` and `LogProofBundle::bundle` of
/// `warg-transparency`, and the bundle encoded. Between two lengths that the
/// log has reached a bundle is made.
#[verifier::external_body]
fn consistency_bundle_bytes(log: &LeafTree, start: u32, end: u32) -> (r: Option<Vec<u8>>)
    requires
        lengths_within(tree_leaves(*log), start, end),
    ensures
        bytes_of(r) == Some(consistency_bundle(tree_leaves(*log), start, end)),
{
    let proof = warg_transparency::log::LogData::prove_consistency(
        &log.inner,
        start as usize,
        end as usize,
    );
    let bundle = warg_transparency::log::LogProofBundle::bundle(vec![proof], vec![], &log.inner);
    bundle.ok().map(|bundle| bundle.encode())
}

/// `LogData::prove_inclusion` for each node and `LogProofBundle::bundle`
/// of `warg-transparency`, and the bundle encoded. Of proofs for leaves that
/// the log held at a length that it has reached, at least one, a bundle is
/// made.
#[verifier::external_body]
fn inclusion_bundle_bytes(log: &LeafTree, log_length: u32, nodes: &Vec<u64>) -> (r: Option<
    Vec<u8>,
>)
    requires
        nodes@.len() > 0,
        nodes_within(tree_leaves(*log), log_length, nodes@),
    ensures
        bytes_of(r) == Some(inclusion_bundle(tree_leaves(*log), log_length, nodes@)),
{
    let length = log_length as usize;
    let proofs = nodes.iter().map(
        |node| warg_transparency::log::LogData::prove_inclusion(
            &log.inner,
            warg_transparency::log::Node(*node as usize),
            length,
        ),
    ).collect();
    let bundle = warg_transparency::log::LogProofBundle::bundle(vec![], proofs, &log.inner);
    bundle.ok().map(|bundle| bundle.encode())
}

/// `LogData::prove_inclusion` and `InclusionProof::evaluate_value` of
/// `warg-transparency`: the proof is walked, each layer is hashed, and the
/// root is returned. For the leaf that the log holds at the node it is the
/// root of the log at the length of the proof.
#[verifier::external_body]
fn evaluate_inclusion(log: &LeafTree, node: u64, log_length: u32, leaf: &Leaf) -> (r: Option<
    String,
>)
    requires
        is_leaf(leaf@),
        nodes_within(tree_leaves(*log), log_length, seq![node]),
    ensures
        text_of(r) == Some(inclusion_root(tree_leaves(*log), node, log_length, leaf@)),
        r matches Some(root) ==> is_sha256_text(root@),
        leaf@ == tree_leaves(*log)[node as int / 2] ==> text_of(r) == Some(
            root_at(tree_leaves(*log), log_length),
        ),
{
    let node = warg_transparency::log::Node(node as usize);
    let proof = warg_transparency::log::LogData::prove_inclusion(&log.inner, node, log_length as usize);
    let log_id = leaf.log_id.parse::<warg_crypto::hash::AnyHash>().unwrap().into();
    let record_id = leaf.record_id.parse::<warg_crypto::hash::AnyHash>().unwrap().into();
    let leaf = warg_protocol::registry::LogLeaf { log_id, record_id };
    let root = proof.evaluate_value(&log.inner, &leaf).ok();
    root.map(|root| warg_crypto::hash::AnyHash::from(root).to_string())
}

/// `LogData::prove_consistency` and `ConsistencyProof::evaluate` of
/// `warg-transparency`: the root of the log at the first length and the
/// root at the second.
#[verifier::external_body]
fn evaluate_consistency(log: &LeafTree, start: u32, end: u32) -> (r: Option<(String, String)>)
    requires
        lengths_within(tree_leaves(*log), start, end),
    ensures
        texts_of(r) == Some((root_at(tree_leaves(*log), start), root_at(tree_leaves(*log), end))),
        r matches Some(roots) ==> is_sha256_text(roots.0@) && is_sha256_text(roots.1@),
{
    let proof = warg_transparency::log::LogData::prove_consistency(
        &log.inner,
        start as usize,
        end as usize,
    );
    let roots = proof.evaluate(&log.inner).ok();
    roots.map(|(old, new)| (
        warg_crypto::hash::AnyHash::from(old).to_string(),
        warg_crypto::hash::AnyHash::from(new).to_string(),
    ))
}

/// Why no consistency proof is given.
#[derive(Clone, Copy, Debug, PartialEq, Eq, Structural)]
pub enum ProofConsistencyErrno {
    LogEmpty,
    ProofBundleFailed,
}

/// Why no inclusion proof is given.
#[derive(Clone, Copy, Debug, PartialEq, Eq, Structural)]
pub enum ProofInclusionError {
    LogEmpty,
    ProofBundleFailed,
}

/// What `prove_log_consistency` returns for a log with these leaves: the
/// bundle for two lengths in order that the log has reached, the first of
/// them not 0.
pub open spec fn consistency_proof(leaves: Seq<LeafModel>, start: u32, end: u32) -> Result<
    Seq<u8>,
    ProofConsistencyErrno,
> {
    if leaves.len() == 0 {
        Err(ProofConsistencyErrno::LogEmpty)
    } else if 0 < start <= end <= leaves.len() {
        Ok(consistency_bundle(leaves, start, end))
    } else {
        Err(ProofConsistencyErrno::ProofBundleFailed)
    }
}

/// Every position is below the length.
pub open spec fn positions_below(indices: Seq<u32>, log_length: u32) -> bool {
    forall|k: int| 0 <= k < indices.len() ==> #[trigger] indices[k] < log_length
}

/// What `prove_log_inclusion` returns for a log with these leaves: the
/// bundle for at least one position, all of them below a length that the
/// log has reached.
pub open spec fn inclusion_proof(leaves: Seq<LeafModel>, log_length: u32, indices: Seq<u32>) -> Result<
    Seq<u8>,
    ProofInclusionError,
> {
    if leaves.len() == 0 {
        Err(ProofInclusionError::LogEmpty)
    } else if indices.len() > 0 && log_length <= leaves.len() && positions_below(
        indices,
        log_length,
    ) {
        Ok(inclusion_bundle(leaves, log_length, leaf_nodes(indices)))
    } else {
        Err(ProofInclusionError::ProofBundleFailed)
    }
}

/// The nodes of the leaves at the given positions, in order.
pub fn nodes_of(leaf_indices: &Vec<u32>) -> (nodes: Vec<u64>)
    ensures
        nodes@ == leaf_nodes(leaf_indices@),
{
    let mut nodes: Vec<u64> = Vec::with_capacity(leaf_indices.len());
    let mut i: usize = 0;
    while i < leaf_indices.len()
        invariant
            0 <= i <= leaf_indices.len(),
            nodes@ == leaf_nodes(leaf_indices@.take(i as int)),
        decreases leaf_indices.len() - i,
    {
        let index: u64 = leaf_indices[i] as u64;
        let node: u64 = 2 * index;
        proof {
            assert(leaf_nodes(leaf_indices@.take(i + 1)) == leaf_nodes(
                leaf_indices@.take(i as int),
            ).push(node));
        }
        nodes.push(node);
        i += 1;
    }
    proof {
        assert(leaf_indices@.take(i as int) == leaf_indices@);
    }
    nodes
}

/// Whether every position is below the length.
pub fn all_below(leaf_indices: &Vec<u32>, log_length: u32) -> (ok: bool)
    ensures
        ok == positions_below(leaf_indices@, log_length),
{
    let mut i: usize = 0;
    while i < leaf_indices.len()
        invariant
            0 <= i <= leaf_indices.len(),
            forall|k: int| 0 <= k < i ==> #[trigger] leaf_indices@[k] < log_length,
        decreases leaf_indices.len() - i,
    {
        if leaf_indices[i] >= log_length {
            return false;
        }
        i += 1;
    }
    true
}

/// The Merkle log of one registry, kept with every node hash so that it can
/// prove what it holds.
pub struct MerkleLog {
    log: LeafTree,
}

impl MerkleLog {
    /// The leaves appended so far, oldest first.
    pub closed spec fn leaves(&self) -> Seq<LeafModel> {
        tree_leaves(self.log)
    }

    /// Every leaf of the log is well formed, and the log holds no more
    /// leaves than it can number.
    pub closed spec fn wf(&self) -> bool {
        &&& tree_leaves(self.log).len() <= MAX_LEAVES
        &&& forall|i: int|
            0 <= i < tree_leaves(self.log).len() ==> is_leaf(#[trigger] tree_leaves(self.log)[i])
    }

    /// A log without leaves.
    pub fn new() -> (log: Self)
        ensures
            log.wf(),
            log.leaves() == Seq::<LeafModel>::empty(),
    {
        MerkleLog { log: new_leaf_tree() }
    }

    /// The number of leaves appended so far.
    pub fn len(&self) -> (n: usize)
        ensures
            n == self.leaves().len(),
    {
        tree_length(&self.log)
    }

    /// The root over the leaves appended so far, and their number. Nothing
    /// is changed.
    pub fn checkpoint(&self) -> (r: (String, usize))
        ensures
            r.0@ == log_root_text(self.leaves()),
            is_sha256_text(r.0@),
            r.1 == self.leaves().len(),
    {
        tree_checkpoint(&self.log)
    }

    /// Appends one leaf and returns its position: the number of leaves that
    /// were appended before it.
    ///
    /// A leaf with a malformed identifier is refused and changes nothing.
    pub fn append_leaf(&mut self, leaf: Leaf) -> (r: Result<u32, AppendLeafErrno>)
        requires
            old(self).wf(),
            old(self).leaves().len() < MAX_LEAVES,
        ensures
            final(self).wf(),
            match leaf_error(leaf@) {
                Some(e) => r == Err::<u32, AppendLeafErrno>(e) && final(self).leaves() == old(
                    self,
                ).leaves(),
                None => r == Ok::<u32, AppendLeafErrno>(old(self).leaves().len() as u32)
                    && final(self).leaves() == old(self).leaves().push(leaf@),
            },
    {
        match check_leaf(&leaf) {
            Ok(()) => {
                let node = push_tree_leaf(&mut self.log, &leaf);
                Ok((node / 2) as u32)
            },
            Err(e) => Err(e),
        }
    }

    /// The encoded bundle of the consistency proof between two lengths of
    /// the log.
    ///
    /// Fails with `LogEmpty` where the log has no leaves. Else the bundle is
    /// given for two lengths in order that the log has reached, the first
    /// of them not 0, and `ProofBundleFailed` for any others.
    pub fn prove_log_consistency(&self, starting_log_length: u32, ending_log_length: u32) -> (r:
        Result<Vec<u8>, ProofConsistencyErrno>)
        requires
            self.wf(),
        ensures
            match consistency_proof(self.leaves(), starting_log_length, ending_log_length) {
                Ok(bytes) => r matches Ok(bundle) && bundle@ == bytes,
                Err(e) => r == Err::<Vec<u8>, ProofConsistencyErrno>(e),
            },
    {
        let length = tree_length(&self.log);
        if length == 0 {
            return Err(ProofConsistencyErrno::LogEmpty);
        }
        if starting_log_length == 0 || starting_log_length > ending_log_length
            || ending_log_length as usize > length {
            return Err(ProofConsistencyErrno::ProofBundleFailed);
        }
        match consistency_bundle_bytes(&self.log, starting_log_length, ending_log_length) {
            Some(bundle) => Ok(bundle),
            None => Err(ProofConsistencyErrno::ProofBundleFailed),
        }
    }

    /// The encoded bundle of the inclusion proofs of the leaves at the given
    /// positions, at one length of the log.
    ///
    /// Fails with `LogEmpty` where the log has no leaves. Else the bundle is
    /// given for at least one position, all of them below a length that the
    /// log has reached, and `ProofBundleFailed` for any other request.
    pub fn prove_log_inclusion(&self, log_length: u32, leaf_indices: Vec<u32>) -> (r: Result<
        Vec<u8>,
        ProofInclusionError,
    >)
        requires
            self.wf(),
        ensures
            match inclusion_proof(self.leaves(), log_length, leaf_indices@) {
                Ok(bytes) => r matches Ok(bundle) && bundle@ == bytes,
                Err(e) => r == Err::<Vec<u8>, ProofInclusionError>(e),
            },
    {
        let length = tree_length(&self.log);
        if length == 0 {
            return Err(ProofInclusionError::LogEmpty);
        }
        if leaf_indices.len() == 0 || log_length as usize > length || !all_below(
            &leaf_indices,
            log_length,
        ) {
            return Err(ProofInclusionError::ProofBundleFailed);
        }
        let nodes = nodes_of(&leaf_indices);
        match inclusion_bundle_bytes(&self.log, log_length, &nodes) {
            Some(bundle) => Ok(bundle),
            None => Err(ProofInclusionError::ProofBundleFailed),
        }
    }

    /// The root that the inclusion proof of the leaf at `index`, at the
    /// length `log_length` of the log, gives for a leaf, for comparison
    /// with an expected root.
    ///
    /// A root is given for a well-formed leaf and a position below a length
    /// that the log has reached. For the leaf that the log holds at the
    /// position, it is the root of the log at that length.
    pub fn inclusion_root(&self, index: u32, log_length: u32, leaf: &Leaf) -> (r: Option<String>)
        requires
            self.wf(),
        ensures
            r is Some <==> is_leaf(leaf@) && index < log_length <= self.leaves().len(),
            r matches Some(root) ==> is_sha256_text(root@) && root@ == inclusion_root(
                self.leaves(),
                leaf_node(index as int) as u64,
                log_length,
                leaf@,
            ),
            r is Some && leaf@ == self.leaves()[index as int] ==> text_of(r) == Some(
                root_at(self.leaves(), log_length),
            ),
    {
        if check_leaf(leaf).is_err() || index >= log_length || log_length as usize > tree_length(
            &self.log,
        ) {
            return None;
        }
        let position: u64 = index as u64;
        evaluate_inclusion(&self.log, 2 * position, log_length, leaf)
    }

    /// The two roots that the consistency proof between two lengths of the
    /// log gives: that at the first length and that at the second.
    ///
    /// The roots are given for two lengths in order that the log has
    /// reached, the first of them not 0, and they are the roots of the log
    /// at those lengths.
    pub fn consistency_roots(&self, starting_log_length: u32, ending_log_length: u32) -> (r:
        Option<(String, String)>)
        requires
            self.wf(),
        ensures
            r is Some <==> 0 < starting_log_length <= ending_log_length <= self.leaves().len(),
            r is Some ==> texts_of(r) == Some(
                (
                    root_at(self.leaves(), starting_log_length),
                    root_at(self.leaves(), ending_log_length),
                ),
            ),
            r matches Some(roots) ==> is_sha256_text(roots.0@) && is_sha256_text(roots.1@),
    {
        if starting_log_length == 0 || starting_log_length > ending_log_length
            || ending_log_length as usize > tree_length(&self.log) {
            return None;
        }
        evaluate_consistency(&self.log, starting_log_length, ending_log_length)
    }
}

} // verus!
