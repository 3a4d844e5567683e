use vk_setup_data_store::keys::{ProverServiceDataKey, ProverServiceDataType};
use vk_setup_data_store::paths::{get_base_path, get_base_vk_path, get_file_path, StoreConfig};
use vk_setup_data_store::rounds::{
    get_round_for_recursive_circuit_type, AggregationRound, NODE_LAYER_CIRCUIT_TYPE,
    SCHEDULER_CIRCUIT_TYPE,
};

fn config() -> StoreConfig {
    StoreConfig {
        verification_key_dir: String::from("/keys"),
        setup_data_dir: String::from("/setup"),
    }
}

#[test]
fn base_path_appends_data_dir() {
    assert_eq!(
        get_base_path("/home/zksync"),
        "/home/zksync/core/bin/vk_setup_data_generator_server_fri/data"
    );
    assert_eq!(
        get_base_vk_path("/"),
        "//core/bin/vk_setup_data_generator_server_fri/data"
    );
}

#[test]
fn fragment_basic_circuit() {
    let key = ProverServiceDataKey::new(3, AggregationRound::BasicCircuits);
    let path = get_file_path(key, ProverServiceDataType::VerificationKey, &config());
    assert_eq!(path, "/keys/verification_basic_3_key.json");
}

#[test]
fn fragment_leaf_circuit() {
    let key = ProverServiceDataKey::new(7, AggregationRound::LeafAggregation);
    let path = get_file_path(key, ProverServiceDataType::SetupData, &config());
    assert_eq!(path, "/setup/setup_leaf_7_data.bin");
}

#[test]
fn fragment_node_ignores_circuit_id() {
    let key = ProverServiceDataKey::new(200, AggregationRound::NodeAggregation);
    let path = get_file_path(key, ProverServiceDataType::VerificationKey, &config());
    assert_eq!(path, "/keys/verification_node_key.json");
}

#[test]
fn fragment_scheduler_ignores_circuit_id() {
    let key = ProverServiceDataKey::new(77, AggregationRound::Scheduler);
    let path = get_file_path(key, ProverServiceDataType::SetupData, &config());
    assert_eq!(path, "/setup/setup_scheduler_data.bin");
}

#[test]
fn resolution_is_deterministic() {
    let key = ProverServiceDataKey::new(11, AggregationRound::LeafAggregation);
    let first = get_file_path(key, ProverServiceDataType::VerificationKey, &config());
    let second = get_file_path(key, ProverServiceDataType::VerificationKey, &config());
    assert_eq!(first, second);
}

#[test]
fn node_and_scheduler_alias_across_circuit_ids() {
    for kind in [
        ProverServiceDataType::VerificationKey,
        ProverServiceDataType::SetupData,
    ] {
        let a = get_file_path(
            ProverServiceDataKey::new(1, AggregationRound::NodeAggregation),
            kind,
            &config(),
        );
        let b = get_file_path(
            ProverServiceDataKey::new(250, AggregationRound::NodeAggregation),
            kind,
            &config(),
        );
        assert_eq!(a, b);
        let c = get_file_path(
            ProverServiceDataKey::new(0, AggregationRound::Scheduler),
            kind,
            &config(),
        );
        let d = get_file_path(
            ProverServiceDataKey::new(255, AggregationRound::Scheduler),
            kind,
            &config(),
        );
        assert_eq!(c, d);
    }
}

#[test]
fn decimal_edges_in_fragments() {
    let cases: [(u8, &str); 5] = [
        (0, "/keys/verification_basic_0_key.json"),
        (9, "/keys/verification_basic_9_key.json"),
        (10, "/keys/verification_basic_10_key.json"),
        (100, "/keys/verification_basic_100_key.json"),
        (255, "/keys/verification_basic_255_key.json"),
    ];
    for (id, expected) in cases {
        let key = ProverServiceDataKey::new(id, AggregationRound::BasicCircuits);
        let path = get_file_path(key, ProverServiceDataType::VerificationKey, &config());
        assert_eq!(path, expected);
    }
}

#[test]
fn round_classification_of_sentinels() {
    assert_eq!(
        get_round_for_recursive_circuit_type(SCHEDULER_CIRCUIT_TYPE),
        AggregationRound::Scheduler
    );
    assert_eq!(
        get_round_for_recursive_circuit_type(NODE_LAYER_CIRCUIT_TYPE),
        AggregationRound::NodeAggregation
    );
}

#[test]
fn round_classification_defaults_to_leaf() {
    assert_eq!(
        get_round_for_recursive_circuit_type(0),
        AggregationRound::LeafAggregation
    );
    assert_eq!(
        get_round_for_recursive_circuit_type(3),
        AggregationRound::LeafAggregation
    );
    assert_eq!(
        get_round_for_recursive_circuit_type(255),
        AggregationRound::LeafAggregation
    );
}
