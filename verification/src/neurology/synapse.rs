//! One input position of a neuron: the value last loaded and the learned weight.

use crate::binary32::{ieee_add, ieee_mul, soft_mul, ZERO};
use vstd::prelude::*;

verus! {

/// A loaded measure and a learned weight, both binary32 bit patterns.
#[derive(Clone, Copy, Debug, PartialEq, Eq, Structural)]
pub struct Synapse {
    pub measure: u32,
    pub weight: u32,
}

impl Synapse {
    pub fn new(measure: u32, weight: u32) -> (s: Synapse)
        ensures
            s == (Synapse { measure, weight }),
    {
        Synapse { measure, weight }
    }

    /// The measure times the weight, and the weight itself.
    pub fn get_weighted_measure(&self) -> (r: (u32, u32))
        ensures
            r.0 == ieee_mul(self.measure, self.weight),
            r.1 == self.weight,
    {
        (soft_mul(self.measure, self.weight), self.weight)
    }
}

/// The weights of the synapses, summed from the first to the last, starting
/// from `+0.0`.
pub open spec fn total_weight(synapses: Seq<Synapse>) -> u32
    decreases synapses.len(),
{
    if synapses.len() == 0 {
        ZERO
    } else {
        ieee_add(total_weight(synapses.drop_last()), synapses.last().weight)
    }
}

/// The products of measure and weight, summed from the first synapse to the
/// last, starting from `+0.0`.
pub open spec fn total_weighted_measure(synapses: Seq<Synapse>) -> u32
    decreases synapses.len(),
{
    if synapses.len() == 0 {
        ZERO
    } else {
        ieee_add(
            total_weighted_measure(synapses.drop_last()),
            ieee_mul(synapses.last().measure, synapses.last().weight),
        )
    }
}

} // verus!
