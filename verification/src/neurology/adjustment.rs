//! The adjustment rule, as mathematics over the synapses of a network.
//!
//! A network is modelled as one sequence of synapses per neuron. All the
//! quantities of one pass are functions of the network as it stands before
//! the pass; neuron 0 is the reference neuron, whose loaded measures are the
//! target signal.

use crate::binary32::{
    clamp_at_zero, ieee_add, ieee_mul, ieee_sub, is_finite, is_nonnegative, is_zero, TWO, ZERO,
};
use crate::error::NetworkError;
use crate::neurology::neuron::activation;
use crate::neurology::synapse::{total_weight, Synapse};
use vstd::prelude::*;

verus! {

/// Every neuron has as many synapses as the first.
pub open spec fn rectangular(net: Seq<Seq<Synapse>>) -> bool {
    forall|j: int| 0 <= j < net.len() ==> (#[trigger] net[j]).len() == net[0].len()
}

/// Some neuron's weights sum to zero.
pub open spec fn degenerate(net: Seq<Seq<Synapse>>) -> bool {
    exists|j: int| 0 <= j < net.len() && is_zero(total_weight(#[trigger] net[j]))
}

/// What the first `n` neurons predict for input position `t`: their
/// activations, each times the neuron's weight at `t`, summed in order.
pub open spec fn prediction(net: Seq<Seq<Synapse>>, t: int, n: nat) -> u32
    decreases n,
{
    if n == 0 {
        ZERO
    } else {
        ieee_add(
            prediction(net, t, (n - 1) as nat),
            ieee_mul(activation(net[n - 1]), net[n - 1][t].weight),
        )
    }
}

/// The reconstruction error at input position `t`: the prediction of all the
/// neurons, less the measure that the reference neuron holds there.
pub open spec fn reconstruction_error(net: Seq<Seq<Synapse>>, t: int) -> u32 {
    ieee_sub(prediction(net, t, net.len()), net[0][t].measure)
}

/// The reconstruction error at every input position.
pub open spec fn reconstruction_errors(net: Seq<Seq<Synapse>>) -> Seq<u32> {
    Seq::new(net[0].len(), |t: int| reconstruction_error(net, t))
}

/// How far the reference neuron's measure at position `a` lies from the
/// activation of neuron `a`.
///
/// The index of the neuron serves as an input position here: every neuron is
/// held against what the reference neuron has loaded at the position that
/// bears the neuron's own number, not against a measure of its own. A pass
/// therefore needs at least as many inputs as neurons.
pub open spec fn deviation(net: Seq<Seq<Synapse>>, a: int) -> u32 {
    ieee_sub(net[0][a].measure, activation(net[a]))
}

/// The part of a neuron's adjustment that all its synapses share, over the
/// first `n` input positions: twice the error at each position, times the
/// neuron's weight there, times the neuron's deviation, summed in order.
pub open spec fn error_feedback(
    synapses: Seq<Synapse>,
    errors: Seq<u32>,
    deviation: u32,
    n: nat,
) -> u32
    decreases n,
{
    if n == 0 {
        ZERO
    } else {
        ieee_add(
            error_feedback(synapses, errors, deviation, (n - 1) as nat),
            ieee_mul(ieee_mul(ieee_mul(TWO, errors[n - 1]), synapses[n - 1].weight), deviation),
        )
    }
}

/// The adjustment of one synapse before the learning constant is applied:
/// the term its neuron's synapses share, plus twice the error at its own
/// position times its neuron's activation.
pub open spec fn unscaled_adjustment(shared: u32, error: u32, activation: u32) -> u32 {
    ieee_add(shared, ieee_mul(ieee_mul(TWO, error), activation))
}

/// The adjustment of one synapse: the unscaled adjustment times the learning
/// constant.
pub open spec fn scaled_adjustment(shared: u32, error: u32, activation: u32, rate: u32) -> u32 {
    ieee_mul(unscaled_adjustment(shared, error, activation), rate)
}

/// The weight less the adjustment where that is strictly positive, else `+0.0`.
pub open spec fn clamped(weight: u32, adjustment: u32) -> u32 {
    clamp_at_zero(ieee_sub(weight, adjustment))
}

/// A neuron's synapses after one pass: the measures as they were, each weight
/// adjusted and clamped.
pub open spec fn adjusted_synapses(
    synapses: Seq<Synapse>,
    errors: Seq<u32>,
    shared: u32,
    activation: u32,
    rate: u32,
) -> Seq<Synapse> {
    Seq::new(
        synapses.len(),
        |b: int|
            Synapse {
                measure: synapses[b].measure,
                weight: clamped(
                    synapses[b].weight,
                    scaled_adjustment(shared, errors[b], activation, rate),
                ),
            },
    )
}

/// The term that the synapses of neuron `a` share.
pub open spec fn shared_term(net: Seq<Seq<Synapse>>, a: int) -> u32 {
    error_feedback(net[a], reconstruction_errors(net), deviation(net, a), net[a].len())
}

/// The adjustment of synapse `b` of neuron `a`.
pub open spec fn adjustment(net: Seq<Seq<Synapse>>, rate: u32, a: int, b: int) -> u32 {
    scaled_adjustment(shared_term(net, a), reconstruction_error(net, b), activation(net[a]), rate)
}

/// The adjustment of synapse `b` of neuron `a` before the learning constant
/// is applied.
pub open spec fn adjustment_base(net: Seq<Seq<Synapse>>, a: int, b: int) -> u32 {
    unscaled_adjustment(shared_term(net, a), reconstruction_error(net, b), activation(net[a]))
}

/// The network after one pass with learning constant `rate`.
pub open spec fn adjusted(net: Seq<Seq<Synapse>>, rate: u32) -> Seq<Seq<Synapse>> {
    Seq::new(
        net.len(),
        |a: int|
            adjusted_synapses(
                net[a],
                reconstruction_errors(net),
                shared_term(net, a),
                activation(net[a]),
                rate,
            ),
    )
}

/// Whether a pass over this network goes through, and if not, why not: a
/// network needs a reference neuron, the reference neuron needs a value at
/// the position of every neuron's index, and every activation must be defined.
pub open spec fn adjustment_outcome(net: Seq<Seq<Synapse>>) -> Result<(), NetworkError> {
    if net.len() == 0 {
        Err(NetworkError::NoReferenceNeuron)
    } else if net.len() > net[0].len() {
        Err(NetworkError::ReferenceOutOfRange)
    } else if degenerate(net) {
        Err(NetworkError::UndefinedActivation)
    } else {
        Ok(())
    }
}

/// What one call of the pass leaves: the adjusted network where the pass goes
/// through, the network as it was where it does not.
pub open spec fn after_pass(net: Seq<Seq<Synapse>>, rate: u32) -> Seq<Seq<Synapse>> {
    if adjustment_outcome(net) is Ok {
        adjusted(net, rate)
    } else {
        net
    }
}

/// What `n` calls of the pass leave, with the same measures loaded throughout.
pub open spec fn after_passes(net: Seq<Seq<Synapse>>, rate: u32, n: nat) -> Seq<Seq<Synapse>>
    decreases n,
{
    if n == 0 {
        net
    } else {
        after_pass(after_passes(net, rate, (n - 1) as nat), rate)
    }
}

/// Every weight of the network is `+0.0` or strictly positive.
pub open spec fn weights_nonnegative(net: Seq<Seq<Synapse>>) -> bool {
    forall|a: int, b: int|
        0 <= a < net.len() && 0 <= b < net[a].len() ==> is_nonnegative(
            (#[trigger] net[a][b]).weight,
        )
}

/// A learning constant of zero is certain to keep this weight: the weight is
/// not negative, and the adjustment it would be scaled from is finite.
pub open spec fn kept_at_zero_rate(weight: u32, base: u32) -> bool {
    is_nonnegative(weight) && is_finite(base)
}

/// The two networks have the same shape, and hold the same measure and the
/// same weight at every synapse.
pub open spec fn same_values(first: Seq<Seq<Synapse>>, second: Seq<Seq<Synapse>>) -> bool {
    &&& first.len() == second.len()
    &&& forall|a: int| 0 <= a < first.len() ==> (#[trigger] first[a]).len() == second[a].len()
    &&& forall|a: int, b: int|
        0 <= a < first.len() && 0 <= b < first[a].len() ==> (#[trigger] first[a][b]).measure
            == second[a][b].measure && first[a][b].weight == second[a][b].weight
}

/// A pass keeps the shape of the network and every measure, and puts in the
/// place of every weight the weight less its adjustment, clamped at zero.
pub proof fn lemma_adjusted_synapse(net: Seq<Seq<Synapse>>, rate: u32, a: int, b: int)
    requires
        rectangular(net),
        0 <= a < net.len(),
        0 <= b < net[a].len(),
    ensures
        adjusted(net, rate).len() == net.len(),
        adjusted(net, rate)[a].len() == net[a].len(),
        adjusted(net, rate)[a][b].measure == net[a][b].measure,
        adjusted(net, rate)[a][b].weight == clamped(
            net[a][b].weight,
            adjustment(net, rate, a, b),
        ),
{
}

/// A pass leaves no negative weight, whatever the weights, the measures and
/// the learning constant were.
pub proof fn lemma_pass_leaves_no_negative_weight(net: Seq<Seq<Synapse>>, rate: u32)
    ensures
        weights_nonnegative(adjusted(net, rate)),
{
}

/// After any number of calls of the pass no weight is negative, provided that
/// none was negative at the start or that the first call went through.
pub proof fn lemma_passes_leave_no_negative_weight(net: Seq<Seq<Synapse>>, rate: u32, n: nat)
    requires
        weights_nonnegative(net) || (n >= 1 && adjustment_outcome(net) is Ok),
    ensures
        weights_nonnegative(after_passes(net, rate, n)),
    decreases n,
{
    if n == 0 {
    } else if n == 1 {
        assert(after_passes(net, rate, 0) == net);
        lemma_pass_leaves_no_negative_weight(net, rate);
    } else {
        lemma_passes_leave_no_negative_weight(net, rate, (n - 1) as nat);
        lemma_pass_leaves_no_negative_weight(after_passes(net, rate, (n - 1) as nat), rate);
    }
}

/// Two networks that hold the same weights and the same measures, adjusted
/// with the same learning constant, hold the same weights after any number of
/// calls of the pass, bit for bit.
pub proof fn lemma_passes_deterministic(
    first: Seq<Seq<Synapse>>,
    second: Seq<Seq<Synapse>>,
    rate: u32,
    n: nat,
)
    requires
        same_values(first, second),
    ensures
        adjustment_outcome(after_passes(first, rate, n)) == adjustment_outcome(
            after_passes(second, rate, n),
        ),
        after_passes(first, rate, n) == after_passes(second, rate, n),
{
    assert(first =~~= second);
}

} // verus!
