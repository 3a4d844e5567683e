use vstd::prelude::*;

verus! {

/// The stage of the aggregation pipeline that produced an artifact.
///
/// `NodeAggregation` and `Scheduler` are round-singletons: for these rounds
/// the circuit id never takes part in naming, because there is exactly one
/// node-aggregation artifact and one scheduler artifact system-wide.
#[derive(Debug, Clone, Copy, PartialEq, Eq, Hash, Structural)]
pub enum AggregationRound {
    BasicCircuits,
    LeafAggregation,
    NodeAggregation,
    Scheduler,
}

/// Numeric circuit type that denotes the scheduler circuit of the recursion
/// layer.  Sentinel of the round classification below.
pub const SCHEDULER_CIRCUIT_TYPE: u8 = 1;

/// Numeric circuit type that denotes the node-aggregation circuit of the
/// recursion layer.  Sentinel of the round classification below.
pub const NODE_LAYER_CIRCUIT_TYPE: u8 = 2;

/// The round that a recursive-layer artifact with the given numeric circuit
/// type belongs to.  Total: every value not equal to one of the two sentinels
/// is classified as leaf aggregation.
pub open spec fn round_for_recursive_circuit_type(circuit_type: u8) -> AggregationRound {
    if circuit_type == SCHEDULER_CIRCUIT_TYPE {
        AggregationRound::Scheduler
    } else if circuit_type == NODE_LAYER_CIRCUIT_TYPE {
        AggregationRound::NodeAggregation
    } else {
        AggregationRound::LeafAggregation
    }
}

/// Name of a round as it appears in diagnostics.
pub open spec fn round_name_chars(round: AggregationRound) -> Seq<char> {
    match round {
        AggregationRound::BasicCircuits => "basic_circuits"@,
        AggregationRound::LeafAggregation => "leaf_aggregation"@,
        AggregationRound::NodeAggregation => "node_aggregation"@,
        AggregationRound::Scheduler => "scheduler"@,
    }
}

/// Appends the diagnostic name of a round.
pub(crate) fn append_round_name(s: &mut String, round: AggregationRound)
    ensures
        final(s)@ == old(s)@ + round_name_chars(round),
{
    match round {
        AggregationRound::BasicCircuits => s.append("basic_circuits"),
        AggregationRound::LeafAggregation => s.append("leaf_aggregation"),
        AggregationRound::NodeAggregation => s.append("node_aggregation"),
        AggregationRound::Scheduler => s.append("scheduler"),
    }
}

/// Classifies a recursive-layer numeric circuit type into its round.
pub fn get_round_for_recursive_circuit_type(circuit_type: u8) -> (round: AggregationRound)
    ensures
        round == round_for_recursive_circuit_type(circuit_type),
{
    if circuit_type == SCHEDULER_CIRCUIT_TYPE {
        AggregationRound::Scheduler
    } else if circuit_type == NODE_LAYER_CIRCUIT_TYPE {
        AggregationRound::NodeAggregation
    } else {
        AggregationRound::LeafAggregation
    }
}

} // verus!
