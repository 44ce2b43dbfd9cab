use registry_log::checkpoints::{
    check_leaf, check_leaf_hashes, check_leafs, AppendLeafErrno, Checkpoint, CheckpointService,
    Leaf,
};
use registry_log::text::HashErrno;
use warg_crypto::hash::{AnyHash, HashAlgorithm, Sha256, SupportedDigest};
use warg_protocol::registry::{LogId, LogLeaf, MapLeaf, RecordId};
use warg_transparency::log::{LogBuilder, VecLog};

const EMPTY_DIGEST: &str = "sha256:e3b0c44298fc1c149afbf4c8996fb92427ae41e4649b934ca495991b7852b855";

fn id(text: &str) -> String {
    HashAlgorithm::Sha256.digest(text.as_bytes()).to_string()
}

fn checkpoint_leaf(log: &str, record: &str) -> Leaf {
    Leaf { log_id: id(log), record_id: id(record) }
}

fn outside_roots(leaves: &[Leaf]) -> (String, String) {
    let mut log: VecLog<Sha256, LogLeaf> = VecLog::default();
    let mut map: warg_transparency::map::Map<Sha256, LogId, MapLeaf> = Default::default();
    for leaf in leaves {
        let log_id: LogId = leaf.log_id.parse::<AnyHash>().unwrap().into();
        let record_id: RecordId = leaf.record_id.parse::<AnyHash>().unwrap().into();
        log.push(&LogLeaf { log_id: log_id.clone(), record_id: record_id.clone() });
        map = map.insert(log_id, MapLeaf { record_id });
    }
    (AnyHash::from(log.checkpoint().root()).to_string(), AnyHash::from(map.root()).to_string())
}

#[test]
fn checkpoint_of_an_empty_registry() {
    let registry = CheckpointService::new();
    assert_eq!(registry.len(), 0);
    let checkpoint = registry.compute_checkpoint();
    assert_eq!(checkpoint.log_length, 0);
    assert_eq!(checkpoint.log_root, EMPTY_DIGEST);
    assert_eq!(checkpoint.map_root, AnyHash::from(Sha256::empty_tree_hash(256)).to_string());
}

#[test]
fn checkpoint_length_is_the_number_of_appended_leaves() {
    let mut registry = CheckpointService::new();
    for n in 0..40u32 {
        assert_eq!(registry.compute_checkpoint().log_length, n);
        assert_eq!(registry.len(), n);
        let leaf = checkpoint_leaf(&format!("log {}", n % 7), &format!("record {n}"));
        assert_eq!(registry.append_leaf(leaf), Ok(()));
    }
    assert_eq!(registry.compute_checkpoint().log_length, 40);
}

#[test]
fn checkpoint_roots_are_those_of_the_outside_structures() {
    let mut registry = CheckpointService::new();
    let mut leaves = Vec::new();
    for n in 0..25 {
        let leaf = checkpoint_leaf(&format!("log {}", n % 4), &format!("record {n}"));
        leaves.push(leaf.clone());
        assert_eq!(registry.append_leaf(leaf), Ok(()));
        let (log_root, map_root) = outside_roots(&leaves);
        let expected = Checkpoint { log_length: n + 1, log_root, map_root };
        assert_eq!(registry.compute_checkpoint(), expected);
    }
}

#[test]
fn checkpoint_roots_change_with_every_leaf() {
    let mut registry = CheckpointService::new();
    let mut seen = vec![registry.compute_checkpoint()];
    for n in 0..12 {
        registry.append_leaf(checkpoint_leaf("log", &format!("record {n}"))).unwrap();
        let checkpoint = registry.compute_checkpoint();
        for earlier in &seen {
            assert_ne!(earlier.log_root, checkpoint.log_root);
            assert_ne!(earlier.map_root, checkpoint.map_root);
        }
        seen.push(checkpoint);
    }
}

#[test]
fn checkpoint_roots_differ_where_one_leaf_differs() {
    let mut first = CheckpointService::new();
    let mut second = CheckpointService::new();
    for n in 0..6 {
        first.append_leaf(checkpoint_leaf("log", &format!("record {n}"))).unwrap();
        let record = if n == 2 { "another".to_string() } else { format!("record {n}") };
        second.append_leaf(checkpoint_leaf("log", &record)).unwrap();
    }
    let first = first.compute_checkpoint();
    let second = second.compute_checkpoint();
    assert_eq!(first.log_length, second.log_length);
    assert_ne!(first.log_root, second.log_root);
    assert_eq!(first.map_root, second.map_root);
}

#[test]
fn checkpoint_is_repeatable_and_changes_nothing() {
    let mut registry = CheckpointService::new();
    registry.append_leaf(checkpoint_leaf("a", "1")).unwrap();
    let first = registry.compute_checkpoint();
    assert_eq!(registry.compute_checkpoint(), first);
    assert_eq!(registry.create_checkpoint(), first);
    assert_eq!(registry.len(), 1);
}

#[test]
fn map_root_depends_on_the_latest_record_of_each_log() {
    let mut first = CheckpointService::new();
    first.append_leaf(checkpoint_leaf("a", "1")).unwrap();
    first.append_leaf(checkpoint_leaf("a", "2")).unwrap();
    let mut second = CheckpointService::new();
    second.append_leaf(checkpoint_leaf("a", "2")).unwrap();
    assert_eq!(first.compute_checkpoint().map_root, second.compute_checkpoint().map_root);
    assert_ne!(first.compute_checkpoint().log_root, second.compute_checkpoint().log_root);
}

#[test]
fn append_leaf_rejects_a_malformed_log_id() {
    let mut registry = CheckpointService::new();
    let leaf = Leaf { log_id: "sha256:xy".to_string(), record_id: "also bad".to_string() };
    assert_eq!(registry.append_leaf(leaf), Err(AppendLeafErrno::InvalidLogId));
    assert_eq!(registry.compute_checkpoint().log_length, 0);
    assert_eq!(registry.compute_checkpoint().log_root, EMPTY_DIGEST);
}

#[test]
fn append_leaf_rejects_a_malformed_record_id() {
    let mut registry = CheckpointService::new();
    registry.append_leaf(checkpoint_leaf("a", "1")).unwrap();
    let before = registry.compute_checkpoint();
    let leaf = Leaf { log_id: id("a"), record_id: "md5:00".to_string() };
    assert_eq!(registry.append_leaf(leaf), Err(AppendLeafErrno::InvalidRecordId));
    assert_eq!(registry.compute_checkpoint(), before);
}

#[test]
fn check_leaf_looks_at_the_log_id_first() {
    let good = checkpoint_leaf("a", "1");
    assert_eq!(check_leaf(&good), Ok(()));
    assert_eq!(check_leaf_hashes(&good), Ok(()));
    let bad = Leaf { log_id: "md5:00".to_string(), record_id: "x".to_string() };
    assert_eq!(check_leaf(&bad), Err(AppendLeafErrno::InvalidLogId));
    assert_eq!(check_leaf_hashes(&bad), Err(HashErrno::UnsupportedHashAlgorithm));
    let bad = Leaf { log_id: "x".to_string(), record_id: "md5:00".to_string() };
    assert_eq!(check_leaf_hashes(&bad), Err(HashErrno::InvalidHash));
    let bad = Leaf { log_id: id("a"), record_id: "md5:00".to_string() };
    assert_eq!(check_leaf(&bad), Err(AppendLeafErrno::InvalidRecordId));
    assert_eq!(check_leaf_hashes(&bad), Err(HashErrno::UnsupportedHashAlgorithm));
}

#[test]
fn append_leafs_appends_a_whole_batch() {
    let mut batch = CheckpointService::new();
    let mut single = CheckpointService::new();
    let leaves: Vec<Leaf> =
        (0..9).map(|n| checkpoint_leaf(&format!("log {}", n % 3), &format!("record {n}"))).collect();
    assert_eq!(batch.append_leafs(leaves.clone()), Ok(()));
    for leaf in leaves {
        single.append_leaf(leaf).unwrap();
    }
    assert_eq!(batch.compute_checkpoint(), single.compute_checkpoint());
    assert_eq!(batch.len(), 9);
    assert_eq!(batch.append_leafs(vec![]), Ok(()));
    assert_eq!(batch.len(), 9);
}

#[test]
fn append_leafs_keeps_nothing_of_a_refused_batch() {
    let mut batch = CheckpointService::new();
    batch.append_leaf(checkpoint_leaf("z", "0")).unwrap();
    let before = batch.compute_checkpoint();
    let leaves = vec![
        checkpoint_leaf("a", "1"),
        checkpoint_leaf("b", "2"),
        Leaf { log_id: id("c"), record_id: "sha256:ABCD".to_string() },
        checkpoint_leaf("d", "4"),
        Leaf { log_id: "md5:00".to_string(), record_id: id("5") },
    ];
    assert_eq!(batch.append_leafs(leaves.clone()), Err(HashErrno::InvalidHash));
    assert_eq!(batch.compute_checkpoint(), before);
    assert_eq!(batch.create_checkpoint(), before);
    assert_eq!(batch.len(), 1);
    assert_eq!(batch.append_leafs(leaves[..2].to_vec()), Ok(()));
    assert_eq!(batch.len(), 3);
}

#[test]
fn append_leafs_reports_the_first_malformed_leaf() {
    let mut registry = CheckpointService::new();
    let leaves = vec![Leaf { log_id: "md5:00".to_string(), record_id: id("5") }];
    assert_eq!(registry.append_leafs(leaves), Err(HashErrno::UnsupportedHashAlgorithm));
    let leaves = vec![
        checkpoint_leaf("a", "1"),
        Leaf { log_id: id("c"), record_id: "md5:00".to_string() },
        Leaf { log_id: "bad".to_string(), record_id: id("5") },
    ];
    assert_eq!(registry.append_leafs(leaves), Err(HashErrno::UnsupportedHashAlgorithm));
    let leaves = vec![
        checkpoint_leaf("a", "1"),
        checkpoint_leaf("b", "2"),
        Leaf { log_id: "bad".to_string(), record_id: "md5:00".to_string() },
    ];
    assert_eq!(registry.append_leafs(leaves), Err(HashErrno::InvalidHash));
    assert_eq!(registry.len(), 0);
}

#[test]
fn check_leafs_checks_every_leaf() {
    assert_eq!(check_leafs(&vec![]), Ok(()));
    assert_eq!(check_leafs(&vec![checkpoint_leaf("a", "1"), checkpoint_leaf("b", "2")]), Ok(()));
    let leaves = vec![
        checkpoint_leaf("a", "1"),
        Leaf { log_id: id("c"), record_id: "sha256:0".to_string() },
    ];
    assert_eq!(check_leafs(&leaves), Err(HashErrno::InvalidHash));
}
