use vstd::prelude::*;

use crate::keys::{ProverServiceDataKey, ProverServiceDataType};
use crate::rounds::AggregationRound;

verus! {

/// Configuration injected into the resolver: the two independent base
/// directories, one per artifact kind.  They are explicit values handed in by
/// the caller, never discovered state, so resolution stays a pure function.
#[derive(Debug, Clone)]
pub struct StoreConfig {
    /// Directory that holds the verification-key files.
    pub verification_key_dir: String,
    /// Directory that holds the setup-data files.
    pub setup_data_dir: String,
}

/// The character of a single decimal digit.
pub open spec fn dec_digit_char(d: nat) -> char {
    if d == 0 {
        '0'
    } else if d == 1 {
        '1'
    } else if d == 2 {
        '2'
    } else if d == 3 {
        '3'
    } else if d == 4 {
        '4'
    } else if d == 5 {
        '5'
    } else if d == 6 {
        '6'
    } else if d == 7 {
        '7'
    } else if d == 8 {
        '8'
    } else {
        '9'
    }
}

/// Decimal representation of a circuit id, without leading zeros.  Circuit
/// ids are one byte, so at most three digits occur.
pub open spec fn dec_chars(n: nat) -> Seq<char> {
    if n < 10 {
        seq![dec_digit_char(n)]
    } else if n < 100 {
        seq![dec_digit_char(n / 10), dec_digit_char(n % 10)]
    } else {
        seq![dec_digit_char(n / 100), dec_digit_char((n / 10) % 10), dec_digit_char(n % 10)]
    }
}

/// The round/circuit-derived substring used to build an artifact's file name.
/// For the two singleton rounds it is a constant: the circuit id does not
/// appear, so all identities of such a round share one location.
pub open spec fn fragment_chars(key: ProverServiceDataKey) -> Seq<char> {
    match key.round {
        AggregationRound::BasicCircuits => "basic_"@ + dec_chars(key.circuit_id as nat),
        AggregationRound::LeafAggregation => "leaf_"@ + dec_chars(key.circuit_id as nat),
        AggregationRound::NodeAggregation => "node"@,
        AggregationRound::Scheduler => "scheduler"@,
    }
}

/// The full path at which the artifact of an identity and kind is stored.
pub open spec fn file_path_chars(
    key: ProverServiceDataKey,
    service_data_type: ProverServiceDataType,
    config: StoreConfig,
) -> Seq<char> {
    match service_data_type {
        ProverServiceDataType::VerificationKey => config.verification_key_dir@
            + "/verification_"@ + fragment_chars(key) + "_key.json"@,
        ProverServiceDataType::SetupData => config.setup_data_dir@ + "/setup_"@
            + fragment_chars(key) + "_data.bin"@,
    }
}

/// Subdirectory of an installation root where generated artifacts live.
pub open spec fn base_path_chars(home: Seq<char>) -> Seq<char> {
    home + "/core/bin/vk_setup_data_generator_server_fri/data"@
}

/// Derives the setup-data base directory from the installation root.
pub fn get_base_path(zksync_home: &str) -> (path: String)
    ensures
        path@ == base_path_chars(zksync_home@),
{
    let mut path = zksync_home.to_owned();
    path.append("/core/bin/vk_setup_data_generator_server_fri/data");
    path
}

/// Derives the verification-key base directory from the installation root.
pub fn get_base_vk_path(zksync_home: &str) -> (path: String)
    ensures
        path@ == base_path_chars(zksync_home@),
{
    let mut path = zksync_home.to_owned();
    path.append("/core/bin/vk_setup_data_generator_server_fri/data");
    path
}

/// Appends one decimal digit character.
fn append_dec_digit(s: &mut String, d: u8)
    requires
        d < 10,
    ensures
        final(s)@ == old(s)@ + seq![dec_digit_char(d as nat)],
{
    proof {
        reveal_strlit("0");
        reveal_strlit("1");
        reveal_strlit("2");
        reveal_strlit("3");
        reveal_strlit("4");
        reveal_strlit("5");
        reveal_strlit("6");
        reveal_strlit("7");
        reveal_strlit("8");
        reveal_strlit("9");
    }
    if d == 0 {
        s.append("0");
    } else if d == 1 {
        s.append("1");
    } else if d == 2 {
        s.append("2");
    } else if d == 3 {
        s.append("3");
    } else if d == 4 {
        s.append("4");
    } else if d == 5 {
        s.append("5");
    } else if d == 6 {
        s.append("6");
    } else if d == 7 {
        s.append("7");
    } else if d == 8 {
        s.append("8");
    } else {
        s.append("9");
    }
    assert(final(s)@ =~= old(s)@ + seq![dec_digit_char(d as nat)]);
}

/// Appends the decimal representation of a circuit id.
pub(crate) fn append_u8_dec(s: &mut String, n: u8)
    ensures
        final(s)@ == old(s)@ + dec_chars(n as nat),
{
    if n >= 100 {
        append_dec_digit(s, n / 100);
        append_dec_digit(s, (n / 10) % 10);
        append_dec_digit(s, n % 10);
    } else if n >= 10 {
        append_dec_digit(s, n / 10);
        append_dec_digit(s, n % 10);
    } else {
        append_dec_digit(s, n);
    }
    assert(final(s)@ =~= old(s)@ + dec_chars(n as nat));
}

/// Builds the name fragment of an identity.
pub fn fragment(key: &ProverServiceDataKey) -> (name: String)
    ensures
        name@ == fragment_chars(*key),
{
    match key.round {
        AggregationRound::BasicCircuits => {
            let mut name = String::new();
            name.append("basic_");
            append_u8_dec(&mut name, key.circuit_id);
            assert(name@ =~= fragment_chars(*key));
            name
        }
        AggregationRound::LeafAggregation => {
            let mut name = String::new();
            name.append("leaf_");
            append_u8_dec(&mut name, key.circuit_id);
            assert(name@ =~= fragment_chars(*key));
            name
        }
        AggregationRound::NodeAggregation => {
            let mut name = String::new();
            name.append("node");
            assert(name@ =~= fragment_chars(*key));
            name
        }
        AggregationRound::Scheduler => {
            let mut name = String::new();
            name.append("scheduler");
            assert(name@ =~= fragment_chars(*key));
            name
        }
    }
}

/// Resolves the on-disk location of an artifact.  Total over every identity
/// and kind, free of side effects: the result is pinned to
/// `file_path_chars`, a pure function of the inputs.
pub fn get_file_path(
    key: ProverServiceDataKey,
    service_data_type: ProverServiceDataType,
    config: &StoreConfig,
) -> (path: String)
    ensures
        path@ == file_path_chars(key, service_data_type, *config),
{
    let name = fragment(&key);
    let mut path = String::new();
    match service_data_type {
        ProverServiceDataType::VerificationKey => {
            path.append(config.verification_key_dir.as_str());
            path.append("/verification_");
            path.append(name.as_str());
            path.append("_key.json");
        }
        ProverServiceDataType::SetupData => {
            path.append(config.setup_data_dir.as_str());
            path.append("/setup_");
            path.append(name.as_str());
            path.append("_data.bin");
        }
    }
    assert(path@ =~= file_path_chars(key, service_data_type, *config));
    path
}

/// Resolution is deterministic: the path depends on nothing but the
/// identity, the artifact kind and the injected configuration, so equal
/// inputs always resolve to equal paths.
pub proof fn lemma_resolve_deterministic(
    k1: ProverServiceDataKey,
    k2: ProverServiceDataKey,
    t1: ProverServiceDataType,
    t2: ProverServiceDataType,
    c1: StoreConfig,
    c2: StoreConfig,
)
    requires
        k1 == k2,
        t1 == t2,
        c1.verification_key_dir@ == c2.verification_key_dir@,
        c1.setup_data_dir@ == c2.setup_data_dir@,
    ensures
        file_path_chars(k1, t1, c1) == file_path_chars(k2, t2, c2),
{
}

/// Round aliasing: under the two singleton rounds the resolved path ignores
/// the circuit id, so identities differing only in circuit id collapse to
/// the same location.
pub proof fn lemma_round_aliasing(
    k1: ProverServiceDataKey,
    k2: ProverServiceDataKey,
    service_data_type: ProverServiceDataType,
    config: StoreConfig,
)
    requires
        k1.round == k2.round,
        k1.round == AggregationRound::NodeAggregation || k1.round
            == AggregationRound::Scheduler,
    ensures
        file_path_chars(k1, service_data_type, config) == file_path_chars(
            k2,
            service_data_type,
            config,
        ),
{
}

} // verus!
