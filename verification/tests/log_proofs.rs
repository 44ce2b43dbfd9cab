use registry_log::checkpoints::{AppendLeafErrno, CheckpointService, Leaf};
use registry_log::log_proofs::{nodes_of, MerkleLog, ProofConsistencyErrno, ProofInclusionError};
use warg_crypto::hash::{AnyHash, HashAlgorithm, Sha256};
use warg_protocol::registry::{LogId, LogLeaf, RecordId};
use warg_transparency::log::LogProofBundle;

fn digest(text: &str) -> String {
    HashAlgorithm::Sha256.digest(text.as_bytes()).to_string()
}

fn proof_leaf(n: u32) -> Leaf {
    Leaf { log_id: digest(&format!("log {}", n % 5)), record_id: digest(&format!("record {n}")) }
}

fn outside_leaf(leaf: &Leaf) -> LogLeaf {
    let log_id: LogId = leaf.log_id.parse::<AnyHash>().unwrap().into();
    let record_id: RecordId = leaf.record_id.parse::<AnyHash>().unwrap().into();
    LogLeaf { log_id, record_id }
}

/// A log of `n` leaves, the leaves, and the root after each append
/// (`roots[l]` is the root at length `l`).
fn filled(n: u32) -> (MerkleLog, Vec<Leaf>, Vec<String>) {
    let mut log = MerkleLog::new();
    let mut registry = CheckpointService::new();
    let mut leaves = Vec::new();
    let mut roots = vec![registry.compute_checkpoint().log_root];
    for i in 0..n {
        let leaf = proof_leaf(i);
        assert_eq!(log.append_leaf(leaf.clone()), Ok(i));
        registry.append_leaf(leaf.clone()).unwrap();
        roots.push(registry.compute_checkpoint().log_root);
        leaves.push(leaf);
    }
    (log, leaves, roots)
}

fn included_root(bundle: &[u8], position: usize, leaf: &Leaf) -> String {
    let bundle = LogProofBundle::<Sha256, LogLeaf>::decode(bundle).unwrap();
    let (data, _, inclusions) = bundle.unbundle();
    let root = inclusions[position].evaluate_value(&data, &outside_leaf(leaf)).unwrap();
    AnyHash::from(root).to_string()
}

fn consistent_roots(bundle: &[u8]) -> (String, String) {
    let bundle = LogProofBundle::<Sha256, LogLeaf>::decode(bundle).unwrap();
    let (data, consistencies, _) = bundle.unbundle();
    let (old, new) = consistencies[0].evaluate(&data).unwrap();
    (AnyHash::from(old).to_string(), AnyHash::from(new).to_string())
}

#[test]
fn append_leaf_returns_sequential_positions() {
    let mut log = MerkleLog::new();
    assert_eq!(log.len(), 0);
    for i in 0..20 {
        assert_eq!(log.append_leaf(proof_leaf(i)), Ok(i));
        assert_eq!(log.len(), i as usize + 1);
    }
}

#[test]
fn append_leaf_refuses_malformed_identifiers() {
    let mut log = MerkleLog::new();
    let leaf = Leaf { log_id: "nothing".to_string(), record_id: digest("r") };
    assert_eq!(log.append_leaf(leaf), Err(AppendLeafErrno::InvalidLogId));
    let leaf = Leaf { log_id: digest("l"), record_id: "sha256:0".to_string() };
    assert_eq!(log.append_leaf(leaf), Err(AppendLeafErrno::InvalidRecordId));
    assert_eq!(log.len(), 0);
    assert_eq!(log.append_leaf(proof_leaf(0)), Ok(0));
}

#[test]
fn nodes_of_doubles_each_position() {
    assert_eq!(nodes_of(&vec![]), Vec::<u64>::new());
    assert_eq!(nodes_of(&vec![0, 1, 2, 7]), vec![0, 2, 4, 14]);
    assert_eq!(nodes_of(&vec![u32::MAX]), vec![8_589_934_590]);
}

#[test]
fn inclusion_proof_gives_the_root_at_its_length() {
    let (log, leaves, roots) = filled(13);
    for length in 1..=13u32 {
        for index in 0..length {
            let bundle = log.prove_log_inclusion(length, vec![index]).unwrap();
            let root = included_root(&bundle, 0, &leaves[index as usize]);
            assert_eq!(root, roots[length as usize]);
            for other in 0..=13usize {
                if other != length as usize {
                    assert_ne!(root, roots[other]);
                }
            }
        }
    }
}

#[test]
fn inclusion_proof_of_several_leaves() {
    let (log, leaves, roots) = filled(9);
    let bundle = log.prove_log_inclusion(8, vec![7, 0, 3]).unwrap();
    assert_eq!(included_root(&bundle, 0, &leaves[7]), roots[8]);
    assert_eq!(included_root(&bundle, 1, &leaves[0]), roots[8]);
    assert_eq!(included_root(&bundle, 2, &leaves[3]), roots[8]);
}

#[test]
fn inclusion_proof_does_not_give_the_root_for_another_leaf() {
    let (log, leaves, roots) = filled(6);
    let bundle = log.prove_log_inclusion(6, vec![2]).unwrap();
    assert_ne!(included_root(&bundle, 0, &leaves[3]), roots[6]);
    assert_eq!(included_root(&bundle, 0, &leaves[2]), roots[6]);
}

#[test]
fn inclusion_proof_of_an_empty_log() {
    let log = MerkleLog::new();
    assert_eq!(log.prove_log_inclusion(1, vec![0]), Err(ProofInclusionError::LogEmpty));
    assert_eq!(log.prove_log_inclusion(0, vec![]), Err(ProofInclusionError::LogEmpty));
}

#[test]
fn inclusion_proof_fails_where_no_bundle_can_be_made() {
    let (log, _, _) = filled(4);
    assert_eq!(log.prove_log_inclusion(4, vec![]), Err(ProofInclusionError::ProofBundleFailed));
    assert_eq!(log.prove_log_inclusion(4, vec![4]), Err(ProofInclusionError::ProofBundleFailed));
    assert_eq!(log.prove_log_inclusion(2, vec![3]), Err(ProofInclusionError::ProofBundleFailed));
    assert_eq!(log.prove_log_inclusion(0, vec![0]), Err(ProofInclusionError::ProofBundleFailed));
    assert_eq!(
        log.prove_log_inclusion(4, vec![1, u32::MAX]),
        Err(ProofInclusionError::ProofBundleFailed)
    );
    assert_eq!(log.prove_log_inclusion(9, vec![1]), Err(ProofInclusionError::ProofBundleFailed));
}

#[test]
fn consistency_proof_gives_both_roots() {
    let (log, _, roots) = filled(11);
    for end in 1..=11u32 {
        for start in 1..=end {
            let bundle = log.prove_log_consistency(start, end).unwrap();
            let (old, new) = consistent_roots(&bundle);
            assert_eq!(old, roots[start as usize]);
            assert_eq!(new, roots[end as usize]);
        }
    }
}

#[test]
fn consistency_proof_tells_a_changed_leaf() {
    let (log, _, roots) = filled(8);
    let mut changed = CheckpointService::new();
    for i in 0..5 {
        let leaf = if i == 2 { proof_leaf(100) } else { proof_leaf(i) };
        changed.append_leaf(leaf).unwrap();
    }
    let bundle = log.prove_log_consistency(5, 8).unwrap();
    let (old, new) = consistent_roots(&bundle);
    assert_eq!(old, roots[5]);
    assert_eq!(new, roots[8]);
    assert_ne!(old, changed.compute_checkpoint().log_root);
}

#[test]
fn consistency_proof_of_an_empty_log() {
    let log = MerkleLog::new();
    assert_eq!(log.prove_log_consistency(0, 0), Err(ProofConsistencyErrno::LogEmpty));
    assert_eq!(log.prove_log_consistency(1, 2), Err(ProofConsistencyErrno::LogEmpty));
}

#[test]
fn consistency_proof_fails_where_no_bundle_can_be_made() {
    let (log, _, _) = filled(4);
    assert_eq!(log.prove_log_consistency(0, 4), Err(ProofConsistencyErrno::ProofBundleFailed));
    assert_eq!(log.prove_log_consistency(3, 2), Err(ProofConsistencyErrno::ProofBundleFailed));
    assert_eq!(log.prove_log_consistency(2, 9), Err(ProofConsistencyErrno::ProofBundleFailed));
}

#[test]
fn proof_bundles_are_deterministic() {
    let (log, _, _) = filled(7);
    assert_eq!(log.prove_log_consistency(3, 7), log.prove_log_consistency(3, 7));
    assert_eq!(log.prove_log_inclusion(7, vec![1, 5]), log.prove_log_inclusion(7, vec![1, 5]));
    assert_ne!(log.prove_log_inclusion(7, vec![1]), log.prove_log_inclusion(7, vec![2]));
    assert_ne!(log.prove_log_consistency(3, 7), log.prove_log_consistency(2, 7));
}

#[test]
fn merkle_log_checkpoint_is_that_of_the_registry() {
    let mut log = MerkleLog::new();
    let mut registry = CheckpointService::new();
    let expected = registry.compute_checkpoint();
    assert_eq!(log.checkpoint(), (expected.log_root, 0));
    for i in 0..17 {
        log.append_leaf(proof_leaf(i)).unwrap();
        registry.append_leaf(proof_leaf(i)).unwrap();
        let expected = registry.compute_checkpoint();
        assert_eq!(log.checkpoint(), (expected.log_root, i as usize + 1));
        assert_eq!(log.checkpoint(), log.checkpoint());
    }
}

#[test]
fn inclusion_root_is_the_root_at_the_length_of_the_proof() {
    let (log, leaves, roots) = filled(13);
    for length in 1..=13u32 {
        for index in 0..length {
            let root = log.inclusion_root(index, length, &leaves[index as usize]).unwrap();
            assert_eq!(root, roots[length as usize]);
            for other in 0..=13usize {
                if other != length as usize {
                    assert_ne!(root, roots[other]);
                }
            }
            let bundle = log.prove_log_inclusion(length, vec![index]).unwrap();
            assert_eq!(included_root(&bundle, 0, &leaves[index as usize]), root);
        }
    }
}

#[test]
fn inclusion_root_for_another_leaf_is_another_root() {
    let (log, leaves, roots) = filled(6);
    assert_eq!(log.inclusion_root(2, 6, &leaves[2]), Some(roots[6].clone()));
    let other = log.inclusion_root(2, 6, &leaves[3]).unwrap();
    assert_ne!(other, roots[6]);
    assert_ne!(log.inclusion_root(3, 6, &leaves[2]).unwrap(), roots[6]);
}

#[test]
fn inclusion_root_of_what_cannot_be_evaluated() {
    let (log, leaves, _) = filled(4);
    assert_eq!(log.inclusion_root(4, 4, &leaves[0]), None);
    assert_eq!(log.inclusion_root(0, 0, &leaves[0]), None);
    assert_eq!(log.inclusion_root(0, 5, &leaves[0]), None);
    assert_eq!(log.inclusion_root(u32::MAX, u32::MAX, &leaves[0]), None);
    let malformed = Leaf { log_id: "x".to_string(), record_id: "y".to_string() };
    assert_eq!(log.inclusion_root(0, 4, &malformed), None);
}

#[test]
fn inclusion_root_at_a_length_that_the_log_has_not_reached() {
    let (log, leaves, roots) = filled(1);
    assert_eq!(log.inclusion_root(0, 1, &leaves[0]), Some(roots[1].clone()));
    assert_eq!(log.inclusion_root(0, 2, &leaves[0]), None);
    assert_eq!(log.inclusion_root(1, 2, &leaves[0]), None);
    assert_eq!(MerkleLog::new().inclusion_root(0, 1, &leaves[0]), None);
}

#[test]
fn inclusion_proof_at_a_length_that_the_log_has_not_reached() {
    let (log, _, _) = filled(1);
    assert!(log.prove_log_inclusion(1, vec![0]).is_ok());
    assert_eq!(log.prove_log_inclusion(2, vec![1]), Err(ProofInclusionError::ProofBundleFailed));
    assert_eq!(log.prove_log_inclusion(2, vec![0]), Err(ProofInclusionError::ProofBundleFailed));
}

#[test]
fn proofs_are_given_for_every_request_within_the_log() {
    let (log, _, _) = filled(20);
    for length in 1..=20u32 {
        let all: Vec<u32> = (0..length).collect();
        assert!(log.prove_log_inclusion(length, all).is_ok());
        assert!(log.prove_log_inclusion(length, vec![length - 1, length - 1]).is_ok());
        for start in 1..=length {
            assert!(log.prove_log_consistency(start, length).is_ok());
        }
    }
}

#[test]
fn consistency_roots_are_the_roots_at_both_lengths() {
    let (log, _, roots) = filled(11);
    for end in 1..=11u32 {
        for start in 1..=end {
            let expected = (roots[start as usize].clone(), roots[end as usize].clone());
            assert_eq!(log.consistency_roots(start, end), Some(expected));
            let bundle = log.prove_log_consistency(start, end).unwrap();
            assert_eq!(Some(consistent_roots(&bundle)), log.consistency_roots(start, end));
        }
    }
}

#[test]
fn consistency_roots_tell_a_changed_leaf() {
    let (log, _, _) = filled(8);
    let mut changed = MerkleLog::new();
    for i in 0..8 {
        let leaf = if i == 2 { proof_leaf(100) } else { proof_leaf(i) };
        changed.append_leaf(leaf).unwrap();
    }
    for start in 1..=8 {
        let (old, new) = log.consistency_roots(start, 8).unwrap();
        let (changed_old, changed_new) = changed.consistency_roots(start, 8).unwrap();
        assert_ne!(new, changed_new);
        assert_eq!(old == changed_old, start <= 2);
    }
}

#[test]
fn consistency_roots_of_what_cannot_be_evaluated() {
    let (log, _, _) = filled(4);
    assert_eq!(log.consistency_roots(0, 4), None);
    assert_eq!(log.consistency_roots(0, 0), None);
    assert_eq!(log.consistency_roots(3, 2), None);
    assert_eq!(log.consistency_roots(2, 5), None);
    assert_eq!(log.consistency_roots(u32::MAX, u32::MAX), None);
    assert_eq!(MerkleLog::new().consistency_roots(1, 1), None);
}

#[test]
fn proofs_lead_to_the_roots_across_powers_of_two() {
    let (log, leaves, roots) = filled(34);
    for length in [1u32, 2, 3, 4, 5, 7, 8, 9, 15, 16, 17, 31, 32, 33, 34] {
        for index in 0..length {
            let root = log.inclusion_root(index, length, &leaves[index as usize]);
            assert_eq!(root, Some(roots[length as usize].clone()));
        }
        for start in 1..=length {
            let expected = (roots[start as usize].clone(), roots[length as usize].clone());
            assert_eq!(log.consistency_roots(start, length), Some(expected));
            assert!(log.prove_log_consistency(start, length).is_ok());
        }
        let all: Vec<u32> = (0..length).collect();
        let bundle = log.prove_log_inclusion(length, all).unwrap();
        for index in 0..length as usize {
            assert_eq!(included_root(&bundle, index, &leaves[index]), roots[length as usize]);
        }
    }
}
