use vk_setup_data_store::codec::{BaseLayerVerificationKey, RecursiveLayerVerificationKey};
use vk_setup_data_store::keys::{ProverServiceDataKey, ProverServiceDataType};
use vk_setup_data_store::paths::{get_file_path, StoreConfig};
use vk_setup_data_store::rounds::AggregationRound;
use vk_setup_data_store::setup::{encode_setup_data, ProverSetupData};
use vk_setup_data_store::store::{
    get_base_layer_vk_for_circuit_type, get_recursive_layer_vk_for_circuit_type,
    get_setup_data_for_circuit_type, save_base_layer_vk, save_recursive_layer_vk,
    save_setup_data, StoreError,
};

fn config() -> StoreConfig {
    StoreConfig {
        verification_key_dir: String::from("/keys"),
        setup_data_dir: String::from("/setup"),
    }
}

fn sample_bundle() -> ProverSetupData {
    ProverSetupData {
        setup_base: vec![10, 20],
        setup: vec![30],
        vk: vec![40, 50, 60],
        setup_tree: vec![70],
        vars_hint: vec![],
        wits_hint: vec![80],
        finalization_hint: vec![90, 100],
    }
}

#[test]
fn save_then_load_base_layer_vk() {
    let vk = BaseLayerVerificationKey {
        circuit_type: 4,
        key: vec![1, 2, 3, 4, 5],
    };
    let (path, bytes) = save_base_layer_vk(&vk, &config());
    assert_eq!(path, "/keys/verification_basic_4_key.json");
    let loaded = get_base_layer_vk_for_circuit_type(4, &config(), Some(&bytes)).unwrap();
    assert_eq!(loaded, vk);
}

#[test]
fn save_then_load_recursive_layer_vk() {
    // Circuit type 1 is the scheduler sentinel: the path must say so.
    let vk = RecursiveLayerVerificationKey {
        circuit_type: 1,
        key: vec![42; 64],
    };
    let (path, bytes) = save_recursive_layer_vk(&vk, &config());
    assert_eq!(path, "/keys/verification_scheduler_key.json");
    let loaded = get_recursive_layer_vk_for_circuit_type(1, &config(), Some(&bytes)).unwrap();
    assert_eq!(loaded, vk);
}

#[test]
fn save_then_load_setup_data() {
    let bundle = sample_bundle();
    let key = ProverServiceDataKey::new(6, AggregationRound::BasicCircuits);
    let encoded = encode_setup_data(&bundle);
    let (path, bytes) = save_setup_data(key, &config(), &encoded);
    assert_eq!(path, "/setup/setup_basic_6_data.bin");
    assert_eq!(bytes, encoded);
    let loaded = get_setup_data_for_circuit_type(key, &config(), Some(&bytes)).unwrap();
    assert_eq!(loaded, bundle);
}

#[test]
fn missing_file_is_artifact_missing() {
    let err = get_base_layer_vk_for_circuit_type(9, &config(), None).unwrap_err();
    match err {
        StoreError::ArtifactMissing { path, key } => {
            assert_eq!(path, "/keys/verification_basic_9_key.json");
            assert_eq!(key.circuit_id, 9);
            assert_eq!(key.round, AggregationRound::BasicCircuits);
        }
        other => panic!("expected ArtifactMissing, got {:?}", other),
    }
    let key = ProverServiceDataKey::new(2, AggregationRound::NodeAggregation);
    let err = get_setup_data_for_circuit_type(key, &config(), None).unwrap_err();
    match err {
        StoreError::ArtifactMissing { path, key: k } => {
            assert_eq!(path, "/setup/setup_node_data.bin");
            assert_eq!(k, key);
        }
        other => panic!("expected ArtifactMissing, got {:?}", other),
    }
}

#[test]
fn wrong_shape_bytes_are_artifact_corrupt() {
    // A setup-data file fed to the verification-key loader.
    let setup_bytes = encode_setup_data(&sample_bundle());
    let err = get_base_layer_vk_for_circuit_type(4, &config(), Some(&setup_bytes)).unwrap_err();
    match err {
        StoreError::ArtifactCorrupt { path, key } => {
            assert_eq!(path, "/keys/verification_basic_4_key.json");
            assert_eq!(key.circuit_id, 4);
        }
        other => panic!("expected ArtifactCorrupt, got {:?}", other),
    }
    // A verification-key file fed to the setup-data loader.
    let vk = RecursiveLayerVerificationKey {
        circuit_type: 3,
        key: vec![7, 7],
    };
    let (_, vk_bytes) = save_recursive_layer_vk(&vk, &config());
    let key = ProverServiceDataKey::new(3, AggregationRound::LeafAggregation);
    let err = get_setup_data_for_circuit_type(key, &config(), Some(&vk_bytes)).unwrap_err();
    assert!(matches!(err, StoreError::ArtifactCorrupt { .. }));
    // A base-layer key fed to the recursive-layer loader.
    let base = BaseLayerVerificationKey {
        circuit_type: 3,
        key: vec![7, 7],
    };
    let (_, base_bytes) = save_base_layer_vk(&base, &config());
    let err =
        get_recursive_layer_vk_for_circuit_type(3, &config(), Some(&base_bytes)).unwrap_err();
    assert!(matches!(err, StoreError::ArtifactCorrupt { .. }));
}

#[test]
fn overwrite_leaves_only_second_artifact() {
    let first = BaseLayerVerificationKey {
        circuit_type: 8,
        key: vec![1, 1, 1],
    };
    let second = BaseLayerVerificationKey {
        circuit_type: 8,
        key: vec![2, 2],
    };
    let (path_a, bytes_a) = save_base_layer_vk(&first, &config());
    let (path_b, bytes_b) = save_base_layer_vk(&second, &config());
    // Same identity, same resolved location: the second save replaces the
    // first.  Model the directory as a last-write-wins cell.
    assert_eq!(path_a, path_b);
    let mut stored = bytes_a;
    stored.clear();
    stored.extend_from_slice(&bytes_b);
    let loaded = get_base_layer_vk_for_circuit_type(8, &config(), Some(&stored)).unwrap();
    assert_eq!(loaded, second);
    assert_ne!(loaded, first);
}

#[test]
fn error_description_names_path_and_identity() {
    let err = get_base_layer_vk_for_circuit_type(9, &config(), None).unwrap_err();
    assert_eq!(
        err.describe(),
        "missing artifact for circuit 9 in round basic_circuits at path \
         /keys/verification_basic_9_key.json"
    );
    let key = ProverServiceDataKey::new(255, AggregationRound::Scheduler);
    let err = get_setup_data_for_circuit_type(key, &config(), Some(&vec![1, 2, 3])).unwrap_err();
    assert_eq!(
        err.describe(),
        "corrupt artifact for circuit 255 in round scheduler at path \
         /setup/setup_scheduler_data.bin"
    );
}

#[test]
fn setup_data_save_copies_bytes_verbatim() {
    let raw = vec![0xca, 0xfe, 0x00, 0x01];
    let key = ProverServiceDataKey::new(1, AggregationRound::Scheduler);
    let (path, bytes) = save_setup_data(key, &config(), &raw);
    assert_eq!(path, "/setup/setup_scheduler_data.bin");
    assert_eq!(bytes, raw);
}

#[test]
fn loader_and_resolver_agree_on_paths() {
    let key = ProverServiceDataKey::new(12, AggregationRound::BasicCircuits);
    let resolved = get_file_path(key, ProverServiceDataType::VerificationKey, &config());
    let err = get_base_layer_vk_for_circuit_type(12, &config(), None).unwrap_err();
    match err {
        StoreError::ArtifactMissing { path, .. } => assert_eq!(path, resolved),
        other => panic!("expected ArtifactMissing, got {:?}", other),
    }
}
