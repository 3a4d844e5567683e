use vstd::prelude::*;

use crate::codec::{
    base_layer_tag, base_vk_text, decode_base_layer_vk, decode_recursive_layer_vk,
    encode_base_layer_vk, encode_recursive_layer_vk, lemma_vk_round_trip, recursive_layer_tag,
    recursive_vk_text, vk_text, vk_text_parse, BaseLayerVerificationKey,
    RecursiveLayerVerificationKey,
};
use crate::hex::push_all;
use crate::keys::{ProverServiceDataKey, ProverServiceDataType};
use crate::paths::{append_u8_dec, dec_chars, file_path_chars, get_file_path, StoreConfig};
use crate::rounds::{
    append_round_name, round_name_chars,
    get_round_for_recursive_circuit_type, round_for_recursive_circuit_type, AggregationRound,
};
use crate::setup::{decode_setup_data, setup_bytes, setup_wf, ProverSetupData};

verus! {

/// Why a load or save failed.  Every variant carries the resolved path and
/// the identity involved, so that a wrong base directory or a missing
/// generation step is diagnosable from the error value alone.  All three
/// are unrecoverable for the operation that hit them: the store never
/// retries and never returns a partial result.
#[derive(Debug, Clone, PartialEq, Eq)]
pub enum StoreError {
    /// The resolved path could not be read: no artifact exists there.
    ArtifactMissing { path: String, key: ProverServiceDataKey },
    /// The resolved path held bytes that do not decode into the expected
    /// typed shape.
    ArtifactCorrupt { path: String, key: ProverServiceDataKey },
    /// The filesystem rejected the write of an encoded artifact.
    WriteFailure { path: String, key: ProverServiceDataKey },
}

/// The diagnostic line of an error: what failed, for which circuit and
/// round, at which resolved path.
pub open spec fn describe_chars(e: StoreError) -> Seq<char> {
    match e {
        StoreError::ArtifactMissing { path, key } => "missing artifact for circuit "@ + dec_chars(
            key.circuit_id as nat,
        ) + " in round "@ + round_name_chars(key.round) + " at path "@ + path@,
        StoreError::ArtifactCorrupt { path, key } => "corrupt artifact for circuit "@ + dec_chars(
            key.circuit_id as nat,
        ) + " in round "@ + round_name_chars(key.round) + " at path "@ + path@,
        StoreError::WriteFailure { path, key } => "failed write for circuit "@ + dec_chars(
            key.circuit_id as nat,
        ) + " in round "@ + round_name_chars(key.round) + " at path "@ + path@,
    }
}

impl StoreError {
    /// Renders the error for diagnostics: names the failure, the circuit
    /// identity and the resolved path, so that a misconfiguration is
    /// visible without inspecting the store's internals.
    pub fn describe(&self) -> (msg: String)
        ensures
            msg@ == describe_chars(*self),
    {
        let mut msg = String::new();
        match self {
            StoreError::ArtifactMissing { path, key } => {
                msg.append("missing artifact for circuit ");
                append_u8_dec(&mut msg, key.circuit_id);
                msg.append(" in round ");
                append_round_name(&mut msg, key.round);
                msg.append(" at path ");
                msg.append(path.as_str());
            },
            StoreError::ArtifactCorrupt { path, key } => {
                msg.append("corrupt artifact for circuit ");
                append_u8_dec(&mut msg, key.circuit_id);
                msg.append(" in round ");
                append_round_name(&mut msg, key.round);
                msg.append(" at path ");
                msg.append(path.as_str());
            },
            StoreError::WriteFailure { path, key } => {
                msg.append("failed write for circuit ");
                append_u8_dec(&mut msg, key.circuit_id);
                msg.append(" in round ");
                append_round_name(&mut msg, key.round);
                msg.append(" at path ");
                msg.append(path.as_str());
            },
        }
        assert(msg@ =~= describe_chars(*self));
        msg
    }
}

/// The identity under which a base-layer key with the given declared
/// circuit type is stored.
pub open spec fn base_vk_key(circuit_type: u8) -> ProverServiceDataKey {
    ProverServiceDataKey { circuit_id: circuit_type, round: AggregationRound::BasicCircuits }
}

/// The identity under which a recursive-layer key with the given declared
/// circuit type is stored: the round comes out of the sentinel
/// classification of the circuit type itself.
pub open spec fn recursive_vk_key(circuit_type: u8) -> ProverServiceDataKey {
    ProverServiceDataKey {
        circuit_id: circuit_type,
        round: round_for_recursive_circuit_type(circuit_type),
    }
}

/// Loads the base-layer verification key of a circuit type.  `contents` is
/// what the caller found at the resolved path: the file's bytes, or nothing
/// where the file could not be opened.  Succeeds exactly when the bytes are
/// the text of a base-layer key, and returns exactly that key; a missing
/// file is `ArtifactMissing`, undecodable bytes are `ArtifactCorrupt`, both
/// naming the resolved path and the identity.
pub fn get_base_layer_vk_for_circuit_type(
    circuit_type: u8,
    config: &StoreConfig,
    contents: Option<&Vec<u8>>,
) -> (r: Result<BaseLayerVerificationKey, StoreError>)
    ensures
        match r {
            Ok(v) => match contents {
                Some(c) => c@ == base_vk_text(v),
                None => false,
            },
            Err(e) => match e {
                StoreError::ArtifactMissing { path, key } => contents is None && key
                    == base_vk_key(circuit_type) && path@ == file_path_chars(
                    base_vk_key(circuit_type),
                    ProverServiceDataType::VerificationKey,
                    *config,
                ),
                StoreError::ArtifactCorrupt { path, key } => (match contents {
                    Some(c) => forall|ct: u8, k: Seq<u8>|
                        c@ != vk_text(base_layer_tag(), ct, k),
                    None => false,
                }) && key == base_vk_key(circuit_type) && path@ == file_path_chars(
                    base_vk_key(circuit_type),
                    ProverServiceDataType::VerificationKey,
                    *config,
                ),
                StoreError::WriteFailure { .. } => false,
            },
        },
{
    let key = ProverServiceDataKey::new(circuit_type, AggregationRound::BasicCircuits);
    let path = get_file_path(key, ProverServiceDataType::VerificationKey, config);
    match contents {
        None => Err(StoreError::ArtifactMissing { path, key }),
        Some(c) => match decode_base_layer_vk(c) {
            Some(v) => Ok(v),
            None => Err(StoreError::ArtifactCorrupt { path, key }),
        },
    }
}

/// Loads the recursive-layer verification key of a circuit type.  The round
/// of the identity comes out of the sentinel classification of the circuit
/// type; everything else is as for the base layer.
pub fn get_recursive_layer_vk_for_circuit_type(
    circuit_type: u8,
    config: &StoreConfig,
    contents: Option<&Vec<u8>>,
) -> (r: Result<RecursiveLayerVerificationKey, StoreError>)
    ensures
        match r {
            Ok(v) => match contents {
                Some(c) => c@ == recursive_vk_text(v),
                None => false,
            },
            Err(e) => match e {
                StoreError::ArtifactMissing { path, key } => contents is None && key
                    == recursive_vk_key(circuit_type) && path@ == file_path_chars(
                    recursive_vk_key(circuit_type),
                    ProverServiceDataType::VerificationKey,
                    *config,
                ),
                StoreError::ArtifactCorrupt { path, key } => (match contents {
                    Some(c) => forall|ct: u8, k: Seq<u8>|
                        c@ != vk_text(recursive_layer_tag(), ct, k),
                    None => false,
                }) && key == recursive_vk_key(circuit_type) && path@ == file_path_chars(
                    recursive_vk_key(circuit_type),
                    ProverServiceDataType::VerificationKey,
                    *config,
                ),
                StoreError::WriteFailure { .. } => false,
            },
        },
{
    let round = get_round_for_recursive_circuit_type(circuit_type);
    let key = ProverServiceDataKey::new(circuit_type, round);
    let path = get_file_path(key, ProverServiceDataType::VerificationKey, config);
    match contents {
        None => Err(StoreError::ArtifactMissing { path, key }),
        Some(c) => match decode_recursive_layer_vk(c) {
            Some(v) => Ok(v),
            None => Err(StoreError::ArtifactCorrupt { path, key }),
        },
    }
}

/// Computes the save of a base-layer key: the resolved path — derived from
/// the artifact's own declared circuit type, never passed separately — and
/// the exact text to place there.  The caller replaces whatever the path
/// holds with these bytes: overwrite semantics.
pub fn save_base_layer_vk(vk: &BaseLayerVerificationKey, config: &StoreConfig) -> (r: (
    String,
    Vec<u8>,
))
    ensures
        r.0@ == file_path_chars(
            base_vk_key(vk.circuit_type),
            ProverServiceDataType::VerificationKey,
            *config,
        ),
        r.1@ == base_vk_text(*vk),
{
    let circuit_type = vk.numeric_circuit_type();
    let key = ProverServiceDataKey::new(circuit_type, AggregationRound::BasicCircuits);
    let path = get_file_path(key, ProverServiceDataType::VerificationKey, config);
    let text = encode_base_layer_vk(vk);
    (path, text)
}

/// Computes the save of a recursive-layer key: as for the base layer, with
/// the round classified out of the artifact's own declared circuit type.
pub fn save_recursive_layer_vk(vk: &RecursiveLayerVerificationKey, config: &StoreConfig) -> (r: (
    String,
    Vec<u8>,
))
    ensures
        r.0@ == file_path_chars(
            recursive_vk_key(vk.circuit_type),
            ProverServiceDataType::VerificationKey,
            *config,
        ),
        r.1@ == recursive_vk_text(*vk),
{
    let circuit_type = vk.numeric_circuit_type();
    let round = get_round_for_recursive_circuit_type(circuit_type);
    let key = ProverServiceDataKey::new(circuit_type, round);
    let path = get_file_path(key, ProverServiceDataType::VerificationKey, config);
    let text = encode_recursive_layer_vk(vk);
    (path, text)
}

/// Loads the setup-data bundle of an identity.  `contents` is what the
/// caller found at the resolved path.  Succeeds exactly when the bytes are
/// the dense binary encoding of a bundle, and returns exactly that bundle;
/// a file that cannot be opened is `ArtifactMissing`, bytes of any other
/// shape are `ArtifactCorrupt`.
pub fn get_setup_data_for_circuit_type(
    key: ProverServiceDataKey,
    config: &StoreConfig,
    contents: Option<&Vec<u8>>,
) -> (r: Result<ProverSetupData, StoreError>)
    ensures
        match r {
            Ok(d) => match contents {
                Some(c) => c@ == setup_bytes(d),
                None => false,
            },
            Err(e) => match e {
                StoreError::ArtifactMissing { path, key: k } => contents is None && k == key
                    && path@ == file_path_chars(key, ProverServiceDataType::SetupData, *config),
                StoreError::ArtifactCorrupt { path, key: k } => (match contents {
                    Some(c) => forall|d: ProverSetupData| setup_wf(d) ==> c@ != setup_bytes(d),
                    None => false,
                }) && k == key && path@ == file_path_chars(
                    key,
                    ProverServiceDataType::SetupData,
                    *config,
                ),
                StoreError::WriteFailure { .. } => false,
            },
        },
{
    let path = get_file_path(key, ProverServiceDataType::SetupData, config);
    match contents {
        None => Err(StoreError::ArtifactMissing { path, key }),
        Some(c) => match decode_setup_data(c) {
            Some(d) => Ok(d),
            None => Err(StoreError::ArtifactCorrupt { path, key }),
        },
    }
}

/// Computes the save of a pre-serialized setup-data bundle: the resolved
/// path and a verbatim copy of the given bytes.  Accepting bytes rather
/// than a typed bundle decouples the expensive encoding step from storage;
/// the caller replaces whatever the path holds: overwrite semantics.
pub fn save_setup_data(
    key: ProverServiceDataKey,
    config: &StoreConfig,
    serialized_setup_data: &Vec<u8>,
) -> (r: (String, Vec<u8>))
    ensures
        r.0@ == file_path_chars(key, ProverServiceDataType::SetupData, *config),
        r.1@ == serialized_setup_data@,
{
    let path = get_file_path(key, ProverServiceDataType::SetupData, config);
    let mut data: Vec<u8> = Vec::new();
    push_all(&mut data, serialized_setup_data);
    (path, data)
}

/// Model of the store's directory: each resolved path maps to the bytes of
/// the file there.
pub open spec fn fs_write(
    files: Map<Seq<char>, Seq<u8>>,
    path: Seq<char>,
    data: Seq<u8>,
) -> Map<Seq<char>, Seq<u8>> {
    files.insert(path, data)
}

/// What a read at a path finds: the file's bytes, or nothing.
pub open spec fn fs_read(files: Map<Seq<char>, Seq<u8>>, path: Seq<char>) -> Option<Seq<u8>> {
    if files.dom().contains(path) {
        Some(files[path])
    } else {
        None
    }
}

/// Save-then-load identity for verification keys: after saving a key's text
/// at its resolved path, a load of the same identity finds exactly that
/// text, and the text parses back to the saved key and to no other.
pub proof fn lemma_save_then_load_vk(
    files: Map<Seq<char>, Seq<u8>>,
    tag: Seq<u8>,
    circuit_type: u8,
    key_payload: Seq<u8>,
    path: Seq<char>,
)
    ensures
        fs_read(fs_write(files, path, vk_text(tag, circuit_type, key_payload)), path) == Some(
            vk_text(tag, circuit_type, key_payload),
        ),
        vk_text_parse(tag, vk_text(tag, circuit_type, key_payload)) == Some(
            (circuit_type, key_payload),
        ),
{
    lemma_vk_round_trip(tag, circuit_type, key_payload);
}

/// Save-then-load identity for setup data: after saving a bundle's encoding
/// at its resolved path, a load of the same identity finds exactly that
/// encoding, and only the saved bundle's components can have produced it.
pub proof fn lemma_save_then_load_setup(
    files: Map<Seq<char>, Seq<u8>>,
    d: ProverSetupData,
    path: Seq<char>,
)
    requires
        setup_wf(d),
    ensures
        fs_read(fs_write(files, path, setup_bytes(d)), path) == Some(setup_bytes(d)),
        forall|d2: ProverSetupData|
            setup_wf(d2) && setup_bytes(d2) == setup_bytes(d) ==> d2.setup_base@
                == d.setup_base@ && d2.setup@ == d.setup@ && d2.vk@ == d.vk@ && d2.setup_tree@
                == d.setup_tree@ && d2.vars_hint@ == d.vars_hint@ && d2.wits_hint@ == d.wits_hint@
                && d2.finalization_hint@ == d.finalization_hint@,
{
    assert forall|d2: ProverSetupData|
        setup_wf(d2) && setup_bytes(d2) == setup_bytes(d) implies d2.setup_base@
        == d.setup_base@ && d2.setup@ == d.setup@ && d2.vk@ == d.vk@ && d2.setup_tree@
        == d.setup_tree@ && d2.vars_hint@ == d.vars_hint@ && d2.wits_hint@ == d.wits_hint@
        && d2.finalization_hint@ == d.finalization_hint@ by {
        crate::setup::lemma_setup_bytes_injective(d2, d);
    }
}

/// Overwrite semantics: after two saves at one path only the second
/// artifact's bytes remain retrievable.
pub proof fn lemma_overwrite(
    files: Map<Seq<char>, Seq<u8>>,
    path: Seq<char>,
    first: Seq<u8>,
    second: Seq<u8>,
)
    ensures
        fs_read(fs_write(fs_write(files, path, first), path, second), path) == Some(second),
{
}

} // verus!
