use vstd::prelude::*;

use crate::rounds::AggregationRound;

verus! {

/// Logical identity of a stored artifact: which circuit, produced in which
/// round.  A pure lookup key; equality is structural over both fields.
#[derive(Debug, Clone, Copy, PartialEq, Eq, Hash, Structural)]
pub struct ProverServiceDataKey {
    pub circuit_id: u8,
    pub round: AggregationRound,
}

impl ProverServiceDataKey {
    pub fn new(circuit_id: u8, round: AggregationRound) -> (key: Self)
        ensures
            key.circuit_id == circuit_id,
            key.round == round,
    {
        Self { circuit_id, round }
    }
}

/// The kind of artifact stored for an identity.  Determines the directory,
/// the file name suffix, and the serialization format: structured text for
/// verification keys, dense binary for setup data.
#[derive(Debug, Clone, Copy, PartialEq, Eq, Hash, Structural)]
pub enum ProverServiceDataType {
    VerificationKey,
    SetupData,
}

} // verus!
