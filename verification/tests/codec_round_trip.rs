use vk_setup_data_store::codec::{
    decode_base_layer_vk, decode_recursive_layer_vk, encode_base_layer_vk,
    encode_recursive_layer_vk, BaseLayerVerificationKey, RecursiveLayerVerificationKey,
};
use vk_setup_data_store::setup::{decode_setup_data, encode_setup_data, ProverSetupData};

fn sample_setup_data() -> ProverSetupData {
    ProverSetupData {
        setup_base: vec![1, 2, 3, 4],
        setup: vec![5, 6],
        vk: vec![],
        setup_tree: vec![7; 300],
        vars_hint: vec![8],
        wits_hint: vec![9, 10, 11],
        finalization_hint: vec![255, 0, 127],
    }
}

#[test]
fn base_vk_text_is_exact() {
    let vk = BaseLayerVerificationKey {
        circuit_type: 13,
        key: vec![0xde, 0xad, 0xbe, 0xef],
    };
    let text = encode_base_layer_vk(&vk);
    let expected = "{\n  \"layer\": \"base\",\n  \"circuit_type\": \"0d\",\n  \"key\": \"deadbeef\"\n}";
    assert_eq!(String::from_utf8(text).unwrap(), expected);
}

#[test]
fn recursive_vk_text_is_exact() {
    let vk = RecursiveLayerVerificationKey {
        circuit_type: 1,
        key: vec![0x00, 0xff],
    };
    let text = encode_recursive_layer_vk(&vk);
    let expected = "{\n  \"layer\": \"recursive\",\n  \"circuit_type\": \"01\",\n  \"key\": \"00ff\"\n}";
    assert_eq!(String::from_utf8(text).unwrap(), expected);
}

#[test]
fn base_vk_round_trip() {
    let vk = BaseLayerVerificationKey {
        circuit_type: 42,
        key: (0u16..=255).map(|b| b as u8).collect(),
    };
    let decoded = decode_base_layer_vk(&encode_base_layer_vk(&vk)).unwrap();
    assert_eq!(decoded, vk);
}

#[test]
fn base_vk_round_trip_empty_key() {
    let vk = BaseLayerVerificationKey {
        circuit_type: 0,
        key: vec![],
    };
    let decoded = decode_base_layer_vk(&encode_base_layer_vk(&vk)).unwrap();
    assert_eq!(decoded, vk);
}

#[test]
fn recursive_vk_round_trip() {
    let vk = RecursiveLayerVerificationKey {
        circuit_type: 2,
        key: vec![9, 8, 7, 6, 5],
    };
    let decoded = decode_recursive_layer_vk(&encode_recursive_layer_vk(&vk)).unwrap();
    assert_eq!(decoded, vk);
}

#[test]
fn vk_layers_do_not_cross_decode() {
    let base = BaseLayerVerificationKey {
        circuit_type: 5,
        key: vec![1, 2, 3],
    };
    let text = encode_base_layer_vk(&base);
    assert!(decode_recursive_layer_vk(&text).is_none());
    let recursive = RecursiveLayerVerificationKey {
        circuit_type: 5,
        key: vec![1, 2, 3],
    };
    let text = encode_recursive_layer_vk(&recursive);
    assert!(decode_base_layer_vk(&text).is_none());
}

#[test]
fn vk_decode_rejects_tampered_text() {
    let vk = BaseLayerVerificationKey {
        circuit_type: 3,
        key: vec![0xab],
    };
    let good = encode_base_layer_vk(&vk);
    assert!(decode_base_layer_vk(&good).is_some());

    let mut truncated = good.clone();
    truncated.pop();
    assert!(decode_base_layer_vk(&truncated).is_none());

    let mut padded = good.clone();
    padded.push(b'\n');
    assert!(decode_base_layer_vk(&padded).is_none());

    let mut uppercase_hex = good.clone();
    let pos = uppercase_hex.len() - 4;
    uppercase_hex[pos] = b'A';
    assert!(decode_base_layer_vk(&uppercase_hex).is_none());

    assert!(decode_base_layer_vk(&Vec::new()).is_none());
}

#[test]
fn setup_data_round_trip() {
    let bundle = sample_setup_data();
    let decoded = decode_setup_data(&encode_setup_data(&bundle)).unwrap();
    assert_eq!(decoded, bundle);
}

#[test]
fn setup_data_round_trip_all_empty() {
    let bundle = ProverSetupData {
        setup_base: vec![],
        setup: vec![],
        vk: vec![],
        setup_tree: vec![],
        vars_hint: vec![],
        wits_hint: vec![],
        finalization_hint: vec![],
    };
    let decoded = decode_setup_data(&encode_setup_data(&bundle)).unwrap();
    assert_eq!(decoded, bundle);
}

#[test]
fn setup_data_decode_rejects_malformed_bytes() {
    let bundle = sample_setup_data();
    let good = encode_setup_data(&bundle);
    assert!(decode_setup_data(&good).is_some());

    let mut truncated = good.clone();
    truncated.pop();
    assert!(decode_setup_data(&truncated).is_none());

    let mut padded = good.clone();
    padded.push(0);
    assert!(decode_setup_data(&padded).is_none());

    assert!(decode_setup_data(&vec![0; 7]).is_none());
    assert!(decode_setup_data(&Vec::new()).is_none());
}
